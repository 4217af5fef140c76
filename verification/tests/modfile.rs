use xtask_scaffold::modfile::{updated_domains_mod, updated_extractors_mod};
use xtask_scaffold::templates::http::extractors_mod;

#[test]
fn domains_mod_in_empty_file() {
    assert_eq!(updated_domains_mod("", "billing"), Some("pub mod billing;\n".to_string()));
}

#[test]
fn domains_mod_after_last_pub_mod() {
    let existing = "//! domains\npub mod auth;\npub mod user;\n\nfn helper() {}\n";
    assert_eq!(
        updated_domains_mod(existing, "billing"),
        Some("//! domains\npub mod auth;\npub mod user;\npub mod billing;\n\nfn helper() {}\n".to_string())
    );
}

#[test]
fn domains_mod_without_declarations_appends() {
    let existing = "// rien\nfn f() {}";
    assert_eq!(
        updated_domains_mod(existing, "billing"),
        Some("// rien\nfn f() {}\npub mod billing;\n".to_string())
    );
}

#[test]
fn domains_mod_already_declared() {
    assert_eq!(updated_domains_mod("pub mod auth;\npub mod billing;\n", "billing"), None);
}

#[test]
fn domains_mod_crlf_and_indentation() {
    let existing = "pub mod auth;\r\n    pub mod user;\r\nconst X: u8 = 1;";
    assert_eq!(
        updated_domains_mod(existing, "billing"),
        Some("pub mod auth;\n    pub mod user;\npub mod billing;\nconst X: u8 = 1;\n".to_string())
    );
}

#[test]
fn domains_mod_second_update_is_noop() {
    let once = updated_domains_mod("pub mod auth;\n", "billing").unwrap();
    assert_eq!(updated_domains_mod(&once, "billing"), None);
}

#[test]
fn extractors_mod_from_skeleton() {
    let existing = extractors_mod();
    let expected = format!("mod auth;\n{}pub use auth::AuthExtractor;\n", existing);
    assert_eq!(updated_extractors_mod(&existing, "auth", "AuthExtractor"), Some(expected));
}

#[test]
fn extractors_mod_groups_lines() {
    let existing = "mod a;\n\tmod b;\n\npub use a::AExtractor;\npub use b::BExtractor;\n\n// fin";
    assert_eq!(
        updated_extractors_mod(existing, "client_context", "ClientContextExtractor"),
        Some(
            "mod a;\n\tmod b;\nmod client_context;\n\npub use a::AExtractor;\npub use b::BExtractor;\npub use client_context::ClientContextExtractor;\n\n// fin\n"
                .to_string()
        )
    );
}

#[test]
fn extractors_mod_already_declared() {
    assert_eq!(updated_extractors_mod("mod auth;\npub use auth::AuthExtractor;\n", "auth", "AuthExtractor"), None);
}

#[test]
fn extractors_mod_second_update_is_noop() {
    let once = updated_extractors_mod("", "auth", "AuthExtractor").unwrap();
    assert_eq!(once, "mod auth;\npub use auth::AuthExtractor;\n");
    assert_eq!(updated_extractors_mod(&once, "auth", "AuthExtractor"), None);
}

#[test]
fn extractors_mod_skeleton_example_registers() {
    let existing = extractors_mod();
    let updated = updated_extractors_mod(&existing, "client_context", "ClientContextExtractor").unwrap();
    assert!(updated.lines().any(|l| l == "mod client_context;"));
    assert!(updated.lines().any(|l| l == "pub use client_context::ClientContextExtractor;"));
    assert_eq!(updated_extractors_mod(&updated, "client_context", "ClientContextExtractor"), None);
}

#[test]
fn declarations_outside_comment_lines() {
    assert_eq!(updated_extractors_mod("pub mod auth;\n", "auth", "AuthExtractor"), None);
    assert_eq!(updated_domains_mod("pub mod b; // x", "b"), None);
    assert_eq!(updated_domains_mod("   // mod b; pub mod b;\n", "b"), Some("   // mod b; pub mod b;\npub mod b;\n".to_string()));
    assert_eq!(
        updated_domains_mod("// pub mod billing;\n", "billing"),
        Some("// pub mod billing;\npub mod billing;\n".to_string())
    );
    assert_eq!(updated_domains_mod("  pub mod billing;\n", "billing"), None);
    assert_eq!(updated_extractors_mod("\tmod auth;\n", "auth", "AuthExtractor"), None);
}
