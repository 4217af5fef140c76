use std::io::Write;

use xtask_scaffold::archive::{find_archive_entry, locate_archive_entry, ArchiveError};
use xtask_scaffold::repo_root::{repo_root_step, RootSearch};

fn tar_xz(entries: &[(&str, &[u8])]) -> Vec<u8> {
    let mut builder = tar::Builder::new(Vec::new());
    for (path, data) in entries {
        let mut header = tar::Header::new_gnu();
        header.set_size(data.len() as u64);
        header.set_mode(0o755);
        header.set_cksum();
        builder.append_data(&mut header, path, *data).unwrap();
    }
    let tar_bytes = builder.into_inner().unwrap();
    let mut encoder = xz2::write::XzEncoder::new(Vec::new(), 6);
    encoder.write_all(&tar_bytes).unwrap();
    encoder.finish().unwrap()
}

#[test]
fn extract_archive_file_reads_tar_xz_entries() {
    let result = locate_archive_entry(b"not a real tar.xz archive", "nested/bin");
    assert!(result.is_err());
}

#[test]
fn locate_first_matching_entry() {
    let archive = tar_xz(&[
        ("README.md", b"readme"),
        ("cargo-xtask-x86_64-unknown-linux-gnu/cargo-xtask", b"bin"),
        ("cargo-xtask-x86_64-unknown-linux-gnu/cargo-xtask", b"again"),
    ]);
    assert_eq!(
        locate_archive_entry(&archive, "cargo-xtask-x86_64-unknown-linux-gnu/cargo-xtask"),
        Ok(1)
    );
    assert_eq!(locate_archive_entry(&archive, "README.md"), Ok(0));
    assert_eq!(locate_archive_entry(&archive, "nested/bin"), Err(ArchiveError::NotFound));
}

#[test]
fn entry_paths_compare_as_paths() {
    let paths = vec!["a/b".to_string(), "x//y/".to_string(), "x/y".to_string()];
    assert_eq!(find_archive_entry(&paths, "x/y"), Some(1));
    assert_eq!(find_archive_entry(&paths, "a/b"), Some(0));
    assert_eq!(find_archive_entry(&paths, "b"), None);
    assert_eq!(find_archive_entry(&Vec::new(), "b"), None);
}

#[test]
fn repo_root_steps() {
    assert_eq!(repo_root_step("/work/repo/api/src", true), RootSearch::Found("/work/repo/api/src".to_string()));
    assert_eq!(repo_root_step("/work/repo/api/src", false), RootSearch::Next("/work/repo/api".to_string()));
    assert_eq!(repo_root_step("/", false), RootSearch::NotFound);
    assert_eq!(repo_root_step("repo", false), RootSearch::Next("".to_string()));
    assert_eq!(repo_root_step("", false), RootSearch::NotFound);
}

#[test]
fn repo_root_search_walks_to_the_nearest_root() {
    // The directories that hold `api/Cargo.toml` in this simulated tree.
    let roots = ["/work/repo", "/work"];
    let mut dir = "/work/repo/api/src/http".to_string();
    let found = loop {
        match repo_root_step(&dir, roots.contains(&dir.as_str())) {
            RootSearch::Found(d) => break Some(d),
            RootSearch::Next(p) => dir = p,
            RootSearch::NotFound => break None,
        }
    };
    assert_eq!(found, Some("/work/repo".to_string()));
}
