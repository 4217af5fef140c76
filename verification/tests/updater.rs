use xtask_scaffold::cli::strip_cargo_subcommand;
use xtask_scaffold::updater::{bin_name_ext, parse_repository, release_bin_path, release_download_url, RepoError};

fn pair(a: &str, b: &str) -> Result<(String, String), RepoError> {
    Ok((a.to_string(), b.to_string()))
}

#[test]
fn repository_owner_and_name() {
    assert_eq!(parse_repository("https://github.com/acme/backend"), pair("acme", "backend"));
    assert_eq!(parse_repository("https://github.com/acme/backend.git"), pair("acme", "backend"));
    assert_eq!(parse_repository("https://github.com/acme/backend/"), pair("acme", "backend"));
    assert_eq!(parse_repository("https://github.com/acme/backend.git//"), pair("acme", "backend"));
    assert_eq!(parse_repository("acme/backend"), pair("acme", "backend"));
    assert_eq!(parse_repository("/backend"), pair("", "backend"));
}

#[test]
fn repository_errors() {
    assert_eq!(parse_repository(""), Err(RepoError::EmptyRepository));
    assert_eq!(parse_repository("backend"), Err(RepoError::MissingOwner));
    assert_eq!(parse_repository("///"), Err(RepoError::MissingOwner));
    assert!(RepoError::EmptyRepository.message().contains("`repository`"));
    assert_eq!(
        RepoError::MissingOwner.message(),
        "impossible de parser le owner du repo depuis `repository`"
    );
}

#[test]
fn release_paths() {
    assert_eq!(bin_name_ext(false), "cargo-xtask");
    assert_eq!(bin_name_ext(true), "cargo-xtask.exe");
    assert_eq!(
        release_bin_path("x86_64-unknown-linux-gnu", false),
        "cargo-xtask-x86_64-unknown-linux-gnu/cargo-xtask"
    );
    assert_eq!(
        release_bin_path("x86_64-pc-windows-msvc", true),
        "cargo-xtask-x86_64-pc-windows-msvc/cargo-xtask.exe"
    );
    assert_eq!(
        release_download_url("acme", "backend", "1.2.3", "cargo-xtask-x.tar.xz"),
        "https://github.com/acme/backend/releases/download/v1.2.3/cargo-xtask-x.tar.xz"
    );
}

#[test]
fn cargo_subcommand_argument() {
    let args = |v: &[&str]| v.iter().map(|s| s.to_string()).collect::<Vec<String>>();
    assert_eq!(strip_cargo_subcommand(args(&["cargo-xtask", "xtask", "new", "domain", "x"])), args(&["cargo-xtask", "new", "domain", "x"]));
    assert_eq!(strip_cargo_subcommand(args(&["cargo-xtask", "new", "xtask"])), args(&["cargo-xtask", "new", "xtask"]));
    assert_eq!(strip_cargo_subcommand(args(&["cargo-xtask"])), args(&["cargo-xtask"]));
}
