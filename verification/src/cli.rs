//! The command line: what the user asked for, once parsed.

use vstd::prelude::*;

verus! {

/// The parsed command line.
#[derive(Debug, Clone, PartialEq, Eq)]
pub struct Cli {
    /// For `new ...`: the root of the target repository (found by walking up
    /// from the current directory, looking for `api/Cargo.toml`, when absent).
    /// For `init <name>`: the parent directory of the new project (the
    /// current directory when absent). Also read from `XTASK_ROOT`.
    pub root: Option<String>,
    pub command: Commands,
}

/// The subcommands.
#[derive(Debug, Clone, PartialEq, Eq)]
pub enum Commands {
    /// Generates a new source file in an existing project.
    New { resource: NewCommands },
    /// Creates a whole new project.
    Init { name: String },
    /// Updates the tool to the latest published release.
    SelfUpdate { yes: bool },
}

/// What `new` generates.
#[derive(Debug, Clone, PartialEq, Eq)]
pub enum NewCommands {
    /// An extractor in `api/src/http/extractors`, e.g. "auth" -> `AuthExtractor`.
    Extractor { name: String },
    /// A domain in `api/src/domains`, e.g. "billing".
    Domain { name: String },
}

/// The arguments without the `xtask` that cargo passes second when it runs
/// `cargo xtask ...` as `cargo-xtask xtask ...`, so that both invocations parse alike.
pub fn strip_cargo_subcommand(args: Vec<String>) -> (r: Vec<String>)
    ensures
        args@.len() > 1 && args@[1]@ == "xtask"@ ==> r@ == args@.remove(1),
        !(args@.len() > 1 && args@[1]@ == "xtask"@) ==> r@ == args@,
{
    let mut args = args;
    if args.len() > 1 {
        let xtask = String::from_str("xtask");
        if args[1] == xtask {
            args.remove(1);
        }
    }
    args
}

} // verus!
