//! The binary entry point.

use vstd::prelude::*;

verus! {

/// The text of `api/src/main.rs` in a new project.
pub const MAIN_RS: &'static str = r#"use api::{bootstrap, config::conf::Config};
use tikv_jemallocator::Jemalloc;

#[global_allocator]
static GLOBAL: Jemalloc = Jemalloc;

#[tokio::main]
async fn main() -> anyhow::Result<()> {
    // 1. Chargement des variables d'environnement
    let config = Config::from_env()?;

    // 2. Initialisation du serveur & des routes via le module bootstrap
    bootstrap::run(config).await?;

    Ok(())
}
"#;

/// The text of `api/src/main.rs` in a new project.
pub fn content() -> (r: String)
    ensures
        r@ == MAIN_RS@,
{
    String::from_str(MAIN_RS)
}

} // verus!
