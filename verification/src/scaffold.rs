//! What the generators hand to the code that touches the disk: the files to
//! write, and why a name is refused.

use vstd::prelude::*;

verus! {

/// A file to create: its path, relative to the directory the generator works
/// in, and its text.
pub struct PlannedFile {
    pub path: String,
    pub content: String,
}

/// The paths and texts of a list of planned files.
pub open spec fn planned_views(fs: Seq<PlannedFile>) -> Seq<(Seq<char>, Seq<char>)> {
    Seq::new(fs.len(), |i: int| (fs[i].path@, fs[i].content@))
}

/// A name that leaves nothing once converted to snake_case.
#[derive(Debug, Clone, Copy, PartialEq, Eq)]
pub enum GenerateError {
    EmptyDomainName,
    EmptyExtractorName,
    EmptyProjectName,
}

impl GenerateError {
    /// The message shown to the user.
    pub fn message(&self) -> (r: String)
        ensures
            r@ == match *self {
                GenerateError::EmptyDomainName => "le nom du workspace ne peut pas être vide"@,
                GenerateError::EmptyExtractorName => "le nom de l'extractor ne peut pas être vide"@,
                GenerateError::EmptyProjectName => "le nom du projet ne peut pas être vide"@,
            },
    {
        match self {
            GenerateError::EmptyDomainName => String::from_str(
                "le nom du workspace ne peut pas être vide",
            ),
            GenerateError::EmptyExtractorName => String::from_str(
                "le nom de l'extractor ne peut pas être vide",
            ),
            GenerateError::EmptyProjectName => String::from_str(
                "le nom du projet ne peut pas être vide",
            ),
        }
    }
}

/// The string `a + b`.
pub(crate) fn concat2(a: &str, b: &str) -> (r: String)
    ensures
        r@ == a@ + b@,
{
    let mut r = String::from_str(a);
    r.append(b);
    r
}

} // verus!
