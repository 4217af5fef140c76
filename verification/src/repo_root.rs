//! Finding the repository root: the nearest ancestor of a directory (the
//! directory itself first) that holds `api/Cargo.toml`. The file system is
//! asked by the caller; each step here decides where to look next.

use vstd::prelude::*;

verus! {

/// `Path::new(p).parent()`, as text: the path without its final component,
/// `None` for a root or an empty path (as `std::path` reads paths on the
/// platform the library is built for).
pub uninterp spec fn path_parent(p: Seq<char>) -> Option<Seq<char>>;

/// `std::path::Path::parent`, converted to a `String`. Believed: the result
/// is `path_parent` of the path.
#[verifier::external_body]
fn parent_of(p: &str) -> (r: Option<String>)
    ensures
        match r {
            Some(q) => path_parent(p@) == Some(q@),
            None => path_parent(p@) is None,
        },
{
    std::path::Path::new(p).parent().map(|q| q.to_string_lossy().into_owned())
}

/// One step of the search for the repository root.
#[derive(Debug, PartialEq, Eq)]
pub enum RootSearch {
    /// This directory is the root.
    Found(String),
    /// Look in this directory next.
    Next(String),
    /// No ancestor is left: there is no root.
    NotFound,
}

/// Decides the search at `dir`, given whether `dir/api/Cargo.toml` is a file:
/// stop at `dir` if it is, else go on with the parent, or give up at the top.
pub fn repo_root_step(dir: &str, holds_api_manifest: bool) -> (r: RootSearch)
    ensures
        holds_api_manifest ==> (r matches RootSearch::Found(d) && d@ == dir@),
        !holds_api_manifest ==> match path_parent(dir@) {
            Some(q) => (r matches RootSearch::Next(n) && n@ == q),
            None => r is NotFound,
        },
{
    if holds_api_manifest {
        RootSearch::Found(String::from_str(dir))
    } else {
        match parent_of(dir) {
            Some(q) => RootSearch::Next(q),
            None => RootSearch::NotFound,
        }
    }
}

} // verus!
