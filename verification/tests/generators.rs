use std::collections::HashSet;

use xtask_scaffold::domain::{plan_domain, render_domain_mod, render_submodule, DOMAINS_DIR};
use xtask_scaffold::extractor::{plan_extractor, render_template, EXTRACTORS_DIR};
use xtask_scaffold::init::{empty_dirs, plan_init};
use xtask_scaffold::scaffold::GenerateError;
use xtask_scaffold::modfile::updated_domains_mod;
use xtask_scaffold::templates::domains::mod_rs;
use xtask_scaffold::templates::{config, files, http, infrastructure};

#[test]
fn render_submodule_text() {
    assert_eq!(render_submodule("dtos", "billing"), "//! TODO: dtos du domaine `billing`\n");
}

#[test]
fn render_domain_mod_text() {
    assert_eq!(
        render_domain_mod(),
        "pub mod dtos;\npub mod entities;\npub mod errors;\npub mod events;\npub mod listeners;\npub mod repositories;\npub mod services;\n"
    );
}

#[test]
fn domain_plan_files() {
    let plan = plan_domain("Billing").unwrap();
    assert_eq!(plan.snake, "billing");
    assert_eq!(plan.dir, "api/src/domains/billing");
    let paths: Vec<&str> = plan.files.iter().map(|f| f.path.as_str()).collect();
    assert_eq!(
        paths,
        vec![
            "api/src/domains/billing/dtos/mod.rs",
            "api/src/domains/billing/entities/mod.rs",
            "api/src/domains/billing/errors/mod.rs",
            "api/src/domains/billing/events/mod.rs",
            "api/src/domains/billing/listeners/mod.rs",
            "api/src/domains/billing/repositories/mod.rs",
            "api/src/domains/billing/services/mod.rs",
            "api/src/domains/billing/mod.rs",
        ]
    );
    assert_eq!(plan.files[6].content, "//! TODO: services du domaine `billing`\n");
    assert_eq!(plan.files[7].content, render_domain_mod());
}

#[test]
fn empty_names_are_refused() {
    assert_eq!(plan_domain("--").err(), Some(GenerateError::EmptyDomainName));
    assert_eq!(plan_extractor("").err(), Some(GenerateError::EmptyExtractorName));
    assert_eq!(plan_init(" _ ").err(), Some(GenerateError::EmptyProjectName));
    assert_eq!(GenerateError::EmptyDomainName.message(), "le nom du workspace ne peut pas être vide");
    assert_eq!(GenerateError::EmptyExtractorName.message(), "le nom de l'extractor ne peut pas être vide");
    assert_eq!(GenerateError::EmptyProjectName.message(), "le nom du projet ne peut pas être vide");
}

#[test]
fn extractor_plan() {
    let plan = plan_extractor("client-context").unwrap();
    assert_eq!(plan.snake, "client_context");
    assert_eq!(plan.struct_name, "ClientContextExtractor");
    assert_eq!(plan.path, "api/src/http/extractors/client_context.rs");
    assert_eq!(plan.content, render_template("ClientContextExtractor"));
    assert!(plan.content.contains("pub struct ClientContextExtractor {\n"));
    assert!(plan.content.contains("impl<S> FromRequestParts<S> for ClientContextExtractor\n"));
    assert!(plan.content.starts_with("use axum::{extract::FromRequestParts, http::request::Parts};\n"));
    assert!(!plan.content.contains("{{"));
}

#[test]
fn skeleton_files() {
    let fs = files();
    assert_eq!(fs.len(), 29);
    assert_eq!(fs[0].0, "Cargo.toml");
    assert!(fs[0].1.starts_with("[package]\nname = \"api\"\n"));
    assert_eq!(fs[28].0, "src/routes/mod.rs");
    let distinct: HashSet<&str> = fs.iter().map(|f| f.0).collect();
    assert_eq!(distinct.len(), 29);
    assert!(fs.iter().all(|f| !f.0.starts_with('/') && !f.1.is_empty()));
}

#[test]
fn init_plan_files() {
    let plan = plan_init("My App").unwrap();
    assert_eq!(plan.snake, "my_app");
    assert_eq!(plan.files.len(), 29 + 5);
    assert_eq!(plan.files[0].path, "my_app/api/Cargo.toml");
    assert_eq!(plan.files[33].path, "my_app/api/tests/unit/.gitkeep");
    assert_eq!(plan.files[33].content, "");
    assert_eq!(empty_dirs().len(), 5);
    let paths: Vec<&str> = plan.files.iter().map(|f| f.path.as_str()).collect();
    assert!(paths.contains(&format!("my_app/{}/mod.rs", DOMAINS_DIR).as_str()));
    assert!(paths.contains(&format!("my_app/{}/mod.rs", EXTRACTORS_DIR).as_str()));
}

#[test]
fn new_domain_in_a_fresh_project() {
    let fresh = mod_rs();
    assert!(!fresh.contains("pub mod "));
    let updated = updated_domains_mod(&fresh, "billing").unwrap();
    assert_eq!(updated, format!("{}pub mod billing;\n", fresh));
}

#[test]
fn skeleton_texts() {
    assert_eq!(http::handlers_mod(), "pub mod api;\n");
    assert_eq!(infrastructure::mod_rs(), "pub mod logging;\n");
    assert!(config::mod_rs().starts_with("pub mod conf;\npub mod cors;\n"));
    assert!(http::extractors_mod().starts_with("// les extractors sont déclarés ici, ex:\n// mod client_context;\n"));
    assert!(http::middlewares_metrics().contains("fn no_token_fails_closed_by_default()"));
}
