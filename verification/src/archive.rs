//! The release archive of `self-update`: which entry of an xz-compressed tar
//! archive holds the binary.

use vstd::prelude::*;

verus! {

/// How the listing of an archive's entries ended.
#[derive(Debug, Clone, Copy, PartialEq, Eq)]
pub enum ListingEnd {
    /// Every entry was read.
    Complete,
    /// An entry (its header or the data before it) could not be read.
    UnreadableEntry,
    /// An entry's path could not be read.
    UnreadablePath,
}

/// Why no entry of the archive is to be unpacked.
#[derive(Debug, Clone, Copy, PartialEq, Eq)]
pub enum ArchiveError {
    /// The archive's entries cannot be listed at all.
    Unreadable,
    /// An entry before the wanted one cannot be read.
    UnreadableEntry,
    /// The path of an entry before the wanted one cannot be read.
    UnreadablePath,
    /// No entry has the wanted path.
    NotFound,
}

/// The paths of the entries of the xz-compressed tar archive `archive`, in
/// order, up to the first entry that cannot be read, and how the listing ended;
/// `None` when the entries cannot be listed at all.
pub uninterp spec fn tar_xz_listing(archive: Seq<u8>) -> Option<(Seq<Seq<char>>, ListingEnd)>;

/// `Path::new(a) == Path::new(b)`: the two paths have the same components
/// (as `std::path` reads them on the platform the library is built for).
pub uninterp spec fn same_path(a: Seq<char>, b: Seq<char>) -> bool;

/// The character sequences held by a sequence of strings.
pub open spec fn string_views(v: Seq<String>) -> Seq<Seq<char>> {
    Seq::new(v.len(), |i: int| v[i]@)
}

/// The entries of an xz-compressed tar archive: `tar::Archive::entries` over
/// `xz2::read::XzDecoder`, each entry's `path()` converted to a `String`
/// (lossily where it is not UTF-8), stopping at the first entry or path that
/// cannot be read. Believed: the result is `tar_xz_listing` of the bytes.
#[verifier::external_body]
fn archive_entry_paths(archive: &[u8]) -> (r: Option<(Vec<String>, ListingEnd)>)
    ensures
        match r {
            Some((ps, end)) => tar_xz_listing(archive@) == Some((string_views(ps@), end)),
            None => tar_xz_listing(archive@) is None,
        },
{
    let mut tar = tar::Archive::new(xz2::read::XzDecoder::new(archive));
    let entries = tar.entries().ok()?;
    let mut paths = Vec::new();
    for entry in entries {
        let entry = match entry {
            Ok(e) => e,
            Err(_) => return Some((paths, ListingEnd::UnreadableEntry)),
        };
        match entry.path() {
            Ok(p) => paths.push(p.to_string_lossy().into_owned()),
            Err(_) => return Some((paths, ListingEnd::UnreadablePath)),
        }
    }
    Some((paths, ListingEnd::Complete))
}

/// `std::path::Path` equality of two paths. Believed: the result is `same_path`.
#[verifier::external_body]
fn path_eq(a: &str, b: &str) -> (r: bool)
    ensures
        r == same_path(a@, b@),
{
    std::path::Path::new(a) == std::path::Path::new(b)
}

/// The index of the first path that is the same path as `wanted`.
pub open spec fn first_same_path(paths: Seq<Seq<char>>, wanted: Seq<char>) -> Option<int>
    decreases paths.len(),
{
    if paths.len() == 0 {
        None
    } else {
        match first_same_path(paths.drop_last(), wanted) {
            Some(i) => Some(i),
            None => if same_path(paths.last(), wanted) {
                Some(paths.len() - 1)
            } else {
                None
            },
        }
    }
}

/// The index of the first entry path that is the same path as `file_to_extract`.
pub fn find_archive_entry(paths: &Vec<String>, file_to_extract: &str) -> (r: Option<usize>)
    ensures
        match r {
            Some(i) => first_same_path(string_views(paths@), file_to_extract@) == Some(i as int),
            None => first_same_path(string_views(paths@), file_to_extract@) is None,
        },
{
    let ghost ps = string_views(paths@);
    let mut i: usize = 0;
    while i < paths.len()
        invariant
            i <= paths@.len(),
            ps == string_views(paths@),
            first_same_path(ps.take(i as int), file_to_extract@) is None,
        decreases paths@.len() - i,
    {
        assert(ps.take(i + 1).drop_last() =~= ps.take(i as int));
        assert(ps.take(i + 1).last() == paths@[i as int]@);
        if path_eq(paths[i].as_str(), file_to_extract) {
            proof {
                lemma_first_same_path_prefix(ps, file_to_extract@, i + 1);
            }
            return Some(i);
        }
        i = i + 1;
    }
    assert(ps.take(paths@.len() as int) =~= ps);
    None
}

proof fn lemma_first_same_path_prefix(ps: Seq<Seq<char>>, wanted: Seq<char>, n: int)
    requires
        0 <= n <= ps.len(),
        first_same_path(ps.take(n), wanted) is Some,
    ensures
        first_same_path(ps, wanted) == first_same_path(ps.take(n), wanted),
    decreases ps.len() - n,
{
    if n < ps.len() {
        assert(ps.take(n + 1).drop_last() =~= ps.take(n));
        lemma_first_same_path_prefix(ps, wanted, n + 1);
    } else {
        assert(ps.take(n) =~= ps);
    }
}

/// What `locate_archive_entry` gives for a listing.
pub open spec fn entry_choice(
    listing: Option<(Seq<Seq<char>>, ListingEnd)>,
    wanted: Seq<char>,
) -> Result<int, ArchiveError> {
    match listing {
        None => Err(ArchiveError::Unreadable),
        Some((paths, end)) => match first_same_path(paths, wanted) {
            Some(i) => Ok(i),
            None => Err(
                match end {
                    ListingEnd::Complete => ArchiveError::NotFound,
                    ListingEnd::UnreadableEntry => ArchiveError::UnreadableEntry,
                    ListingEnd::UnreadablePath => ArchiveError::UnreadablePath,
                },
            ),
        },
    }
}

/// The index, among the archive's entries, of the first one whose path is
/// `file_to_extract`; an error when the entries cannot be listed, when one
/// before it cannot be read, or when none has that path.
pub fn locate_archive_entry(archive: &[u8], file_to_extract: &str) -> (r: Result<usize, ArchiveError>)
    ensures
        match r {
            Ok(i) => entry_choice(tar_xz_listing(archive@), file_to_extract@) == Ok::<int, ArchiveError>(i as int),
            Err(e) => entry_choice(tar_xz_listing(archive@), file_to_extract@) == Err::<int, ArchiveError>(e),
        },
{
    match archive_entry_paths(archive) {
        None => Err(ArchiveError::Unreadable),
        Some((paths, end)) => match find_archive_entry(&paths, file_to_extract) {
            Some(i) => Ok(i),
            None => Err(
                match end {
                    ListingEnd::Complete => ArchiveError::NotFound,
                    ListingEnd::UnreadableEntry => ArchiveError::UnreadableEntry,
                    ListingEnd::UnreadablePath => ArchiveError::UnreadablePath,
                },
            ),
        },
    }
}

} // verus!
