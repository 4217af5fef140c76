//! The domains module of a new project.

use vstd::prelude::*;

verus! {

/// The text of `api/src/domains/mod.rs` in a new project: no domain yet.
/// This text is this crate's own choice: comment lines only, so that no line
/// declares a domain and `new domain` appends the first `pub mod` line.
pub const MOD_RS: &'static str = "// les domaines métier sont déclarés ici\n\
     // -> générés automatiquement via `cargo xtask new domain <nom>`\n";

/// The text of `api/src/domains/mod.rs` in a new project.
pub fn mod_rs() -> (r: String)
    ensures
        r@ == MOD_RS@,
{
    String::from_str(MOD_RS)
}

} // verus!
