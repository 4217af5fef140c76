//! `cargo xtask self-update`: where the release lives and what to fetch from it.

use vstd::prelude::*;
use crate::naming::trim_end_char;
use crate::scaffold::concat2;
use crate::text::{chars_of, string_from_chars};

verus! {

/// The name of the published binary (the archives are named after it).
pub const BIN_NAME: &'static str = "cargo-xtask";

/// `s` without its trailing copies of `suffix` (`str::trim_end_matches`).
pub open spec fn trim_end_suffix(s: Seq<char>, suffix: Seq<char>) -> Seq<char>
    decreases s.len(),
{
    if suffix.len() > 0 && suffix.len() <= s.len() && s.subrange(
        s.len() - suffix.len(),
        s.len() as int,
    ) == suffix {
        trim_end_suffix(s.subrange(0, s.len() - suffix.len()), suffix)
    } else {
        s
    }
}

/// The index of the last `c` in `s`.
pub open spec fn last_index_of(s: Seq<char>, c: char) -> Option<int>
    decreases s.len(),
{
    if s.len() == 0 {
        None
    } else if s.last() == c {
        Some(s.len() - 1)
    } else {
        last_index_of(s.drop_last(), c)
    }
}

/// The repository URL without its trailing `/`s, then without its trailing `.git`s.
pub open spec fn trimmed_repository(repo: Seq<char>) -> Seq<char> {
    trim_end_suffix(trim_end_char(repo, '/'), ".git"@)
}

/// The last `/`-separated part of `s`.
pub open spec fn last_segment(s: Seq<char>) -> Seq<char> {
    match last_index_of(s, '/') {
        Some(k) => s.subrange(k + 1, s.len() as int),
        None => s,
    }
}

/// Why the repository URL gives no owner and name.
#[derive(Debug, Clone, Copy, PartialEq, Eq)]
pub enum RepoError {
    /// The `repository` field is empty.
    EmptyRepository,
    /// The URL has no `/` before the repository name.
    MissingOwner,
}

impl RepoError {
    /// The message shown to the user.
    pub fn message(&self) -> (r: String)
        ensures
            r@ == match *self {
                RepoError::EmptyRepository => "le champ `repository` de xtask/Cargo.toml est vide — renseigne-le avec l'URL GitHub du repo (ex: \"https://github.com/acme/backend\") pour activer `cargo xtask self-update`"@,
                RepoError::MissingOwner => "impossible de parser le owner du repo depuis `repository`"@,
            },
    {
        match self {
            RepoError::EmptyRepository => String::from_str(
                "le champ `repository` de xtask/Cargo.toml est vide — renseigne-le avec l'URL GitHub du repo (ex: \"https://github.com/acme/backend\") pour activer `cargo xtask self-update`",
            ),
            RepoError::MissingOwner => String::from_str(
                "impossible de parser le owner du repo depuis `repository`",
            ),
        }
    }
}

/// The `(owner, name)` that a repository URL designates: the last two
/// `/`-separated parts of the URL once trailing `/`s and `.git`s are removed.
pub open spec fn repository_owner_and_name(repo: Seq<char>) -> Result<(Seq<char>, Seq<char>), RepoError> {
    let t = trimmed_repository(repo);
    if repo.len() == 0 {
        Err(RepoError::EmptyRepository)
    } else {
        match last_index_of(t, '/') {
            None => Err(RepoError::MissingOwner),
            Some(k) => Ok((last_segment(t.subrange(0, k)), t.subrange(k + 1, t.len() as int))),
        }
    }
}

fn last_slash(s: &Vec<char>, hi: usize) -> (r: Option<usize>)
    requires
        hi <= s@.len(),
    ensures
        r matches Some(k) ==> k < hi && last_index_of(s@.subrange(0, hi as int), '/') == Some(k as int),
        r is None ==> last_index_of(s@.subrange(0, hi as int), '/') is None,
{
    let mut i: usize = hi;
    while i > 0
        invariant
            i <= hi <= s@.len(),
            last_index_of(s@.subrange(0, hi as int), '/') == last_index_of(s@.subrange(0, i as int), '/'),
        decreases i,
    {
        assert(s@.subrange(0, i as int).drop_last() =~= s@.subrange(0, i - 1));
        if s[i - 1] == '/' {
            return Some(i - 1);
        }
        i = i - 1;
    }
    None
}

/// The length of `s` once its trailing `/`s are removed.
fn trimmed_slashes_len(s: &Vec<char>) -> (hi: usize)
    ensures
        hi <= s@.len(),
        trim_end_char(s@, '/') == s@.subrange(0, hi as int),
{
    let mut hi: usize = s.len();
    assert(s@.subrange(0, hi as int) =~= s@);
    while hi > 0 && s[hi - 1] == '/'
        invariant
            hi <= s@.len(),
            trim_end_char(s@, '/') == trim_end_char(s@.subrange(0, hi as int), '/'),
        decreases hi,
    {
        assert(s@.subrange(0, hi as int).drop_last() =~= s@.subrange(0, hi - 1));
        hi = hi - 1;
    }
    hi
}

/// The length of `s[..hi]` once its trailing `.git`s are removed.
fn trimmed_git_len(s: &Vec<char>, hi0: usize) -> (hi: usize)
    requires
        hi0 <= s@.len(),
    ensures
        hi <= hi0,
        trim_end_suffix(s@.subrange(0, hi0 as int), ".git"@) == s@.subrange(0, hi as int),
{
    proof {
        reveal_strlit(".git");
    }
    let git = chars_of(".git");
    let mut hi = hi0;
    while hi >= 4 && s[hi - 4] == git[0] && s[hi - 3] == git[1] && s[hi - 2] == git[2] && s[hi - 1] == git[3]
        invariant
            hi <= hi0 <= s@.len(),
            git@ == ".git"@,
            git@.len() == 4,
            trim_end_suffix(s@.subrange(0, hi0 as int), ".git"@) == trim_end_suffix(s@.subrange(0, hi as int), ".git"@),
        decreases hi,
    {
        assert(s@.subrange(0, hi as int).subrange(hi - 4, hi as int) =~= git@);
        assert(s@.subrange(0, hi as int).subrange(0, hi - 4) =~= s@.subrange(0, hi - 4));
        hi = hi - 4;
    }
    proof {
        let t = s@.subrange(0, hi as int);
        if hi >= 4 {
            let tail = t.subrange(hi - 4, hi as int);
            assert(tail[0] == s@[hi - 4] && tail[1] == s@[hi - 3] && tail[2] == s@[hi - 2] && tail[3] == s@[hi - 1]);
            if tail == git@ {
                assert(tail[0] == git@[0] && tail[1] == git@[1] && tail[2] == git@[2] && tail[3] == git@[3]);
            }
        }
        assert(trim_end_suffix(t, ".git"@) == t);
    }
    hi
}

/// Reads `(owner, name)` from the repository URL, e.g.
/// "https://github.com/acme/backend" gives ("acme", "backend").
pub fn parse_repository(repo: &str) -> (r: Result<(String, String), RepoError>)
    ensures
        match r {
            Ok((owner, name)) => repository_owner_and_name(repo@) == Ok::<(Seq<char>, Seq<char>), RepoError>((owner@, name@)),
            Err(e) => repository_owner_and_name(repo@) == Err::<(Seq<char>, Seq<char>), RepoError>(e),
        },
{
    let s = chars_of(repo);
    if s.len() == 0 {
        return Err(RepoError::EmptyRepository);
    }
    let hi1 = trimmed_slashes_len(&s);
    let hi = trimmed_git_len(&s, hi1);
    assert(s@.subrange(0, hi1 as int).subrange(0, hi as int) =~= s@.subrange(0, hi as int));
    let ghost t = s@.subrange(0, hi as int);
    assert(trimmed_repository(repo@) == t);
    match last_slash(&s, hi) {
        None => Err(RepoError::MissingOwner),
        Some(k) => {
            let name = string_from_chars(&s, k + 1, hi);
            assert(s@.subrange(k + 1, hi as int) =~= t.subrange(k + 1, t.len() as int));
            assert(s@.subrange(0, k as int) =~= t.subrange(0, k as int));
            let owner = match last_slash(&s, k) {
                Some(k2) => {
                    assert(s@.subrange(k2 + 1, k as int) =~= t.subrange(0, k as int).subrange(k2 + 1, k as int));
                    string_from_chars(&s, k2 + 1, k)
                },
                None => {
                    assert(s@.subrange(0, k as int).subrange(0, k as int) =~= s@.subrange(0, k as int));
                    string_from_chars(&s, 0, k)
                },
            };
            Ok((owner, name))
        },
    }
}

/// The name of the binary inside the release archive.
pub open spec fn bin_file_name(windows: bool) -> Seq<char> {
    if windows {
        BIN_NAME@ + ".exe"@
    } else {
        BIN_NAME@
    }
}

/// The name of the binary inside the release archive: `.exe` on Windows.
pub fn bin_name_ext(windows: bool) -> (r: String)
    ensures
        r@ == bin_file_name(windows),
{
    if windows {
        concat2(BIN_NAME, ".exe")
    } else {
        String::from_str(BIN_NAME)
    }
}

/// The path of the binary inside the release archive for `target`:
/// `cargo-xtask-{target}/{binary}`.
pub fn release_bin_path(target: &str, windows: bool) -> (r: String)
    ensures
        r@ == BIN_NAME@ + "-"@ + target@ + "/"@ + bin_file_name(windows),
{
    let mut r = concat2(BIN_NAME, "-");
    r.append(target);
    r.append("/");
    let bin = bin_name_ext(windows);
    r.append(bin.as_str());
    r
}

/// The download URL of a release asset on GitHub.
pub fn release_download_url(owner: &str, name: &str, version: &str, asset: &str) -> (r: String)
    ensures
        r@ == "https://github.com/"@ + owner@ + "/"@ + name@ + "/releases/download/v"@ + version@
            + "/"@ + asset@,
{
    let mut r = concat2("https://github.com/", owner);
    r.append("/");
    r.append(name);
    r.append("/releases/download/v");
    r.append(version);
    r.append("/");
    r.append(asset);
    r
}


/// `s` holds no `/`.
pub open spec fn no_slash(s: Seq<char>) -> bool {
    forall|i: int| 0 <= i < s.len() ==> #[trigger] s[i] != '/'
}

/// `s` ends with `.git`.
pub open spec fn ends_with_git(s: Seq<char>) -> bool {
    s.len() >= 4 && s.subrange(s.len() - 4, s.len() as int) == ".git"@
}

proof fn lemma_last_slash_before(a: Seq<char>, b: Seq<char>)
    requires
        no_slash(b),
    ensures
        last_index_of(a.push('/') + b, '/') == Some(a.len() as int),
    decreases b.len(),
{
    let s = a.push('/') + b;
    if b.len() == 0 {
        assert(s =~= a.push('/'));
    } else {
        assert(s.last() == b.last());
        assert(b.last() == b[b.len() - 1]);
        assert(s.drop_last() =~= a.push('/') + b.drop_last());
        lemma_last_slash_before(a, b.drop_last());
    }
}

proof fn lemma_no_git_end(a: Seq<char>, name: Seq<char>)
    requires
        no_slash(name),
        name.len() > 0,
        !ends_with_git(name),
    ensures
        trim_end_suffix(a.push('/') + name, ".git"@) == a.push('/') + name,
        trim_end_char(a.push('/') + name, '/') == a.push('/') + name,
{
    reveal_strlit(".git");
    let s = a.push('/') + name;
    assert(s.last() == name[name.len() - 1]);
    if s.len() >= 4 && s.subrange(s.len() - 4, s.len() as int) == ".git"@ {
        if name.len() >= 4 {
            assert(name.subrange(name.len() - 4, name.len() as int) =~= s.subrange(s.len() - 4, s.len() as int));
        } else {
            let j = s.len() - name.len() - 1;
            assert(s[j] == '/');
            assert(s.subrange(s.len() - 4, s.len() as int)[j - (s.len() - 4)] == '/');
        }
    }
}

/// A GitHub-style repository URL `{base}/{owner}/{name}`, with or without a
/// final `.git`, designates `(owner, name)`.
pub proof fn lemma_repository_url_round_trip(base: Seq<char>, owner: Seq<char>, name: Seq<char>, dot_git: bool)
    requires
        no_slash(owner),
        no_slash(name),
        name.len() > 0,
        !ends_with_git(name),
    ensures
        repository_owner_and_name(
            base.push('/') + owner + "/"@ + name + (if dot_git { ".git"@ } else { Seq::empty() }),
        ) == Ok::<(Seq<char>, Seq<char>), RepoError>((owner, name)),
{
    reveal_strlit(".git");
    reveal_strlit("/");
    let head = base.push('/') + owner;
    let plain = head.push('/') + name;
    assert(head + "/"@ + name =~= plain);
    let repo = head + "/"@ + name + (if dot_git { ".git"@ } else { Seq::empty() });
    lemma_no_git_end(head, name);
    if dot_git {
        assert(repo =~= plain + ".git"@);
        assert(repo.last() == 't');
        assert(trim_end_char(repo, '/') == repo);
        assert(repo.subrange(repo.len() - 4, repo.len() as int) =~= ".git"@);
        assert(repo.subrange(0, repo.len() - 4) =~= plain);
    } else {
        assert(repo =~= plain);
    }
    assert(trimmed_repository(repo) == plain);
    lemma_last_slash_before(head, name);
    assert(plain.subrange(head.len() + 1int, plain.len() as int) =~= name);
    assert(plain.subrange(0, head.len() as int) =~= head);
    lemma_last_slash_before(base, owner);
    assert(head.subrange(base.len() + 1int, head.len() as int) =~= owner);
}

} // verus!
