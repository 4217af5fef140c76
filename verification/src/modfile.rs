//! The edits that register a new module in an existing `mod.rs`: its text is
//! split into lines, the declaration lines are inserted after the last line of
//! the same kind, and the lines are joined back with a final newline.

use vstd::prelude::*;
use crate::text::{char_is_whitespace, chars_of, is_ws, string_from_chars};

verus! {

/// The character sequences held by a sequence of character vectors.
pub open spec fn seq_views(ls: Seq<Vec<char>>) -> Seq<Seq<char>> {
    Seq::new(ls.len(), |i: int| ls[i]@)
}


/// `l` without one final carriage return.
pub open spec fn strip_cr(l: Seq<char>) -> Seq<char> {
    if l.len() > 0 && l.last() == '\r' {
        l.drop_last()
    } else {
        l
    }
}

/// Splitting `s` at line feeds: the lines ended so far (each without its line
/// feed and one carriage return before it) and the line still open.
pub open spec fn line_scan(s: Seq<char>) -> (Seq<Seq<char>>, Seq<char>)
    decreases s.len(),
{
    if s.len() == 0 {
        (seq![], seq![])
    } else {
        let (done, cur) = line_scan(s.drop_last());
        if s.last() == '\n' {
            (done.push(strip_cr(cur)), seq![])
        } else {
            (done, cur.push(s.last()))
        }
    }
}

/// The lines of `s` as `str::lines` yields them: split at `\n` or `\r\n`, with
/// a final line that has no terminator kept only when it is not empty.
pub open spec fn lines_of(s: Seq<char>) -> Seq<Seq<char>> {
    let (done, cur) = line_scan(s);
    if cur.len() == 0 {
        done
    } else {
        done.push(cur)
    }
}

/// `l` without its leading whitespace (`str::trim_start`).
pub open spec fn trim_start_ws(l: Seq<char>) -> Seq<char>
    decreases l.len(),
{
    if l.len() > 0 && is_ws(l[0]) {
        trim_start_ws(l.drop_first())
    } else {
        l
    }
}

pub open spec fn starts_with(s: Seq<char>, p: Seq<char>) -> bool {
    p.len() <= s.len() && s.subrange(0, p.len() as int) == p
}

/// The line, once its indentation is removed, begins with `prefix`.
pub open spec fn is_decl_line(l: Seq<char>, prefix: Seq<char>) -> bool {
    starts_with(trim_start_ws(l), prefix)
}

/// `s` holds `p` as a contiguous part.
pub open spec fn contains_seq(s: Seq<char>, p: Seq<char>) -> bool {
    exists|i: int| 0 <= i <= s.len() - p.len() && #[trigger] s.subrange(i, i + p.len()) == p
}

/// Some line of `text` holds `decl`, leaving out the lines that are `//`
/// comments: such a line describes a declaration, it does not make one.
pub open spec fn declares(text: Seq<char>, decl: Seq<char>) -> bool {
    exists|i: int|
        0 <= i < lines_of(text).len() && !is_decl_line(lines_of(text)[i], "//"@) && contains_seq(
            #[trigger] lines_of(text)[i],
            decl,
        )
}

/// The index of the last line that begins with `prefix` (`Iterator::rposition`).
pub open spec fn last_decl(ls: Seq<Seq<char>>, prefix: Seq<char>) -> Option<int>
    decreases ls.len(),
{
    if ls.len() == 0 {
        None
    } else if is_decl_line(ls.last(), prefix) {
        Some(ls.len() - 1)
    } else {
        last_decl(ls.drop_last(), prefix)
    }
}

/// `ls` with `line` inserted right after its last line that begins with
/// `prefix`, or at `default` when there is none.
pub open spec fn insert_after_last(
    ls: Seq<Seq<char>>,
    prefix: Seq<char>,
    line: Seq<char>,
    default: int,
) -> Seq<Seq<char>> {
    let k = match last_decl(ls, prefix) {
        Some(i) => i + 1,
        None => default,
    };
    ls.insert(k, line)
}

/// The lines joined with `\n` between them (`[String]::join("\n")`).
pub open spec fn join_lines(ls: Seq<Seq<char>>) -> Seq<char>
    decreases ls.len(),
{
    if ls.len() == 0 {
        seq![]
    } else if ls.len() == 1 {
        ls[0]
    } else {
        join_lines(ls.drop_last()).push('\n') + ls.last()
    }
}

/// `s` ending with a line feed.
pub open spec fn with_final_newline(s: Seq<char>) -> Seq<char> {
    if s.len() > 0 && s.last() == '\n' {
        s
    } else {
        s.push('\n')
    }
}

/// The declaration of a domain module: `pub mod {snake};`.
pub open spec fn domain_mod_line(snake: Seq<char>) -> Seq<char> {
    "pub mod "@ + snake + ";"@
}

/// The declaration of an extractor module: `mod {snake};`.
pub open spec fn extractor_mod_line(snake: Seq<char>) -> Seq<char> {
    "mod "@ + snake + ";"@
}

/// The re-export of an extractor type: `pub use {snake}::{struct_name};`.
pub open spec fn extractor_use_line(snake: Seq<char>, struct_name: Seq<char>) -> Seq<char> {
    "pub use "@ + snake + "::"@ + struct_name + ";"@
}

/// The new text of `domains/mod.rs`, or `None` when it already declares the
/// domain: the declaration goes after the last `pub mod ` line, or at the end.
pub open spec fn domains_mod_update(existing: Seq<char>, snake: Seq<char>) -> Option<Seq<char>> {
    if declares(existing, domain_mod_line(snake)) {
        None
    } else {
        let ls = lines_of(existing);
        Some(
            with_final_newline(
                join_lines(insert_after_last(ls, "pub mod "@, domain_mod_line(snake), ls.len() as int)),
            ),
        )
    }
}

/// The lines of `extractors/mod.rs` once the extractor is registered: its
/// `mod` line after the last `mod ` line (or first), then its `pub use` line
/// after the last `pub use ` line (or last).
pub open spec fn extractor_lines(
    existing: Seq<char>,
    snake: Seq<char>,
    struct_name: Seq<char>,
) -> Seq<Seq<char>> {
    let ls1 = insert_after_last(lines_of(existing), "mod "@, extractor_mod_line(snake), 0);
    insert_after_last(ls1, "pub use "@, extractor_use_line(snake, struct_name), ls1.len() as int)
}

/// The new text of `extractors/mod.rs`, or `None` when it already declares the module.
pub open spec fn extractors_mod_update(
    existing: Seq<char>,
    snake: Seq<char>,
    struct_name: Seq<char>,
) -> Option<Seq<char>> {
    if declares(existing, extractor_mod_line(snake)) {
        None
    } else {
        Some(with_final_newline(join_lines(extractor_lines(existing, snake, struct_name))))
    }
}

fn append_str(v: &mut Vec<char>, s: &str)
    ensures
        final(v)@ == old(v)@ + s@,
{
    let mut t = chars_of(s);
    v.append(&mut t);
}

proof fn lemma_trim_ws_skip(l: Seq<char>, k: int)
    requires
        0 <= k < l.len(),
        is_ws(l[k]),
    ensures
        trim_start_ws(l.subrange(k, l.len() as int)) == trim_start_ws(l.subrange(k + 1, l.len() as int)),
{
    assert(l.subrange(k, l.len() as int).drop_first() =~= l.subrange(k + 1, l.len() as int));
}

/// The index of the first character of `l` that is not whitespace.
fn trim_start_index(l: &Vec<char>) -> (k: usize)
    ensures
        k <= l@.len(),
        trim_start_ws(l@) == l@.subrange(k as int, l@.len() as int),
{
    let n = l.len();
    let mut k: usize = 0;
    assert(l@.subrange(0, n as int) =~= l@);
    while k < n && char_is_whitespace(l[k])
        invariant
            k <= n == l@.len(),
            trim_start_ws(l@) == trim_start_ws(l@.subrange(k as int, n as int)),
        decreases n - k,
    {
        proof {
            lemma_trim_ws_skip(l@, k as int);
        }
        k = k + 1;
    }
    assert(trim_start_ws(l@.subrange(k as int, n as int)) == l@.subrange(k as int, n as int));
    k
}

/// Whether `l[k..k + p.len()]` is `p`.
fn matches_at(l: &Vec<char>, k: usize, p: &Vec<char>) -> (r: bool)
    requires
        k + p@.len() <= l@.len(),
    ensures
        r == (l@.subrange(k as int, k + p@.len()) == p@),
{
    let m = p.len();
    let n = l.len();
    let mut j: usize = 0;
    while j < m
        invariant
            k + m <= n == l@.len(),
            m == p@.len(),
            j <= m,
            forall|q: int| 0 <= q < j ==> l@[k + q] == p@[q],
        decreases m - j,
    {
        if l[k + j] != p[j] {
            assert(l@.subrange(k as int, k + m)[j as int] != p@[j as int]);
            return false;
        }
        j = j + 1;
    }
    assert(l@.subrange(k as int, k + m) =~= p@);
    true
}

fn is_decl(l: &Vec<char>, prefix: &Vec<char>) -> (r: bool)
    ensures
        r == is_decl_line(l@, prefix@),
{
    let k = trim_start_index(l);
    let n = l.len();
    let ghost t = l@.subrange(k as int, n as int);
    if prefix.len() > n - k {
        return false;
    }
    let r = matches_at(l, k, prefix);
    assert(t.subrange(0, prefix@.len() as int) =~= l@.subrange(k as int, k + prefix@.len()));
    r
}

fn contains_chars(s: &Vec<char>, p: &Vec<char>) -> (r: bool)
    ensures
        r == contains_seq(s@, p@),
{
    let n = s.len();
    let m = p.len();
    if m > n {
        return false;
    }
    if m == 0 {
        assert(s@.subrange(0int, 0int + m) =~= p@);
        return true;
    }
    let mut i: usize = 0;
    while i <= n - m
        invariant
            n == s@.len(),
            m == p@.len(),
            0 < m <= n,
            i <= n - m + 1,
            forall|j: int| 0 <= j < i ==> #[trigger] s@.subrange(j, j + m) != p@,
        decreases n - m + 1 - i,
    {
        if matches_at(s, i, p) {
            return true;
        }
        i = i + 1;
    }
    false
}

/// Whether some line that is not a `//` comment holds `decl`.
fn declares_line(ls: &Vec<Vec<char>>, decl: &Vec<char>) -> (r: bool)
    ensures
        r == (exists|i: int|
            0 <= i < ls@.len() && !is_decl_line(seq_views(ls@)[i], "//"@) && contains_seq(
                #[trigger] seq_views(ls@)[i],
                decl@,
            )),
{
    let comment = chars_of("//");
    let mut i: usize = 0;
    while i < ls.len()
        invariant
            i <= ls@.len(),
            comment@ == "//"@,
            forall|j: int|
                0 <= j < i ==> is_decl_line(seq_views(ls@)[j], "//"@) || !contains_seq(
                    #[trigger] seq_views(ls@)[j],
                    decl@,
                ),
        decreases ls@.len() - i,
    {
        let l = &ls[i];
        assert(seq_views(ls@)[i as int] == l@);
        if !is_decl(l, &comment) && contains_chars(l, decl) {
            return true;
        }
        i = i + 1;
    }
    false
}

fn last_decl_index(ls: &Vec<Vec<char>>, prefix: &Vec<char>) -> (r: Option<usize>)
    ensures
        r matches Some(i) ==> i < ls@.len() && last_decl(seq_views(ls@), prefix@) == Some(i as int),
        r is None ==> last_decl(seq_views(ls@), prefix@) is None,
{
    let ghost vs = seq_views(ls@);
    let mut i: usize = ls.len();
    assert(vs.take(i as int) =~= vs);
    while i > 0
        invariant
            i <= ls@.len(),
            vs == seq_views(ls@),
            last_decl(vs, prefix@) == last_decl(vs.take(i as int), prefix@),
        decreases i,
    {
        assert(vs.take(i as int).drop_last() =~= vs.take(i - 1));
        assert(vs.take(i as int).last() == ls@[i - 1]@);
        if is_decl(&ls[i - 1], prefix) {
            return Some(i - 1);
        }
        i = i - 1;
    }
    None
}

fn lines_chars(s: &Vec<char>) -> (r: Vec<Vec<char>>)
    ensures
        seq_views(r@) == lines_of(s@),
{
    let n = s.len();
    let mut done: Vec<Vec<char>> = Vec::new();
    let mut cur: Vec<char> = Vec::new();
    let mut i: usize = 0;
    while i < n
        invariant
            i <= n == s@.len(),
            line_scan(s@.take(i as int)) == (seq_views(done@), cur@),
        decreases n - i,
    {
        assert(s@.take(i + 1).drop_last() =~= s@.take(i as int));
        assert(s@.take(i + 1).last() == s@[i as int]);
        let c = s[i];
        if c == '\n' {
            if cur.len() > 0 && cur[cur.len() - 1] == '\r' {
                cur.pop();
            }
            let ghost before = seq_views(done@);
            let line = cur;
            done.push(line);
            cur = Vec::new();
            assert(seq_views(done@) =~= before.push(line@));
        } else {
            cur.push(c);
        }
        i = i + 1;
    }
    assert(s@.take(n as int) =~= s@);
    if cur.len() > 0 {
        let ghost before = seq_views(done@);
        let line = cur;
        done.push(line);
        assert(seq_views(done@) =~= before.push(line@));
    }
    done
}

fn join_chars(ls: &Vec<Vec<char>>) -> (r: Vec<char>)
    ensures
        r@ == join_lines(seq_views(ls@)),
{
    let ghost vs = seq_views(ls@);
    let mut out: Vec<char> = Vec::new();
    let mut i: usize = 0;
    while i < ls.len()
        invariant
            i <= ls@.len(),
            vs == seq_views(ls@),
            out@ == join_lines(vs.take(i as int)),
        decreases ls@.len() - i,
    {
        assert(vs.take(i + 1).drop_last() =~= vs.take(i as int));
        assert(vs.take(i + 1).last() == ls@[i as int]@);
        if i > 0 {
            out.push('\n');
        }
        let mut line = ls[i].clone();
        out.append(&mut line);
        i = i + 1;
    }
    assert(vs.take(ls@.len() as int) =~= vs);
    out
}

proof fn lemma_views_insert(ls: Seq<Vec<char>>, k: int, v: Vec<char>)
    requires
        0 <= k <= ls.len(),
    ensures
        seq_views(ls.insert(k, v)) == seq_views(ls).insert(k, v@),
{
    assert(seq_views(ls.insert(k, v)) =~= seq_views(ls).insert(k, v@));
}

/// `ls` with `line` inserted after its last line that begins with `prefix`,
/// or at `default` when there is none.
fn insert_after_last_decl(ls: &mut Vec<Vec<char>>, prefix: &str, line: Vec<char>, default: usize)
    requires
        default <= old(ls)@.len(),
    ensures
        seq_views(final(ls)@) == insert_after_last(
            seq_views(old(ls)@),
            prefix@,
            line@,
            default as int,
        ),
{
    let p = chars_of(prefix);
    let len = ls.len();
    let k = match last_decl_index(ls, &p) {
        Some(i) => i + 1,
        None => default,
    };
    proof {
        lemma_views_insert(ls@, k as int, line);
    }
    ls.insert(k, line);
}

fn finish(ls: &Vec<Vec<char>>) -> (r: String)
    ensures
        r@ == with_final_newline(join_lines(seq_views(ls@))),
{
    let mut out = join_chars(ls);
    if !(out.len() > 0 && out[out.len() - 1] == '\n') {
        out.push('\n');
    }
    string_from_chars(&out, 0, out.len())
}

/// The new text of `domains/mod.rs` once `pub mod {snake};` is declared in
/// it, grouped with the other `pub mod` lines; `None` when a line of `existing` that is not a `//`
/// comment already holds that declaration.
pub fn updated_domains_mod(existing: &str, snake: &str) -> (r: Option<String>)
    ensures
        r matches Some(t) ==> domains_mod_update(existing@, snake@) == Some(t@),
        r is None ==> domains_mod_update(existing@, snake@) is None,
{
    let text = chars_of(existing);
    let mut mod_line: Vec<char> = Vec::new();
    append_str(&mut mod_line, "pub mod ");
    append_str(&mut mod_line, snake);
    append_str(&mut mod_line, ";");
    assert(mod_line@ =~= domain_mod_line(snake@));
    let mut lines = lines_chars(&text);
    if declares_line(&lines, &mod_line) {
        return None;
    }
    let n = lines.len();
    insert_after_last_decl(&mut lines, "pub mod ", mod_line, n);
    Some(finish(&lines))
}

/// The new text of `extractors/mod.rs` once `mod {snake};` and
/// `pub use {snake}::{struct_name};` are declared in it, each grouped with the
/// lines of its kind; `None` when a line of `existing` that is not a
/// `//` comment already holds the `mod` line.
pub fn updated_extractors_mod(existing: &str, snake: &str, struct_name: &str) -> (r: Option<String>)
    ensures
        r matches Some(t) ==> extractors_mod_update(existing@, snake@, struct_name@) == Some(t@),
        r is None ==> extractors_mod_update(existing@, snake@, struct_name@) is None,
{
    let text = chars_of(existing);
    let mut mod_line: Vec<char> = Vec::new();
    append_str(&mut mod_line, "mod ");
    append_str(&mut mod_line, snake);
    append_str(&mut mod_line, ";");
    assert(mod_line@ =~= extractor_mod_line(snake@));
    let mut use_line: Vec<char> = Vec::new();
    append_str(&mut use_line, "pub use ");
    append_str(&mut use_line, snake);
    append_str(&mut use_line, "::");
    append_str(&mut use_line, struct_name);
    append_str(&mut use_line, ";");
    assert(use_line@ =~= extractor_use_line(snake@, struct_name@));
    let mut lines = lines_chars(&text);
    if declares_line(&lines, &mod_line) {
        return None;
    }
    insert_after_last_decl(&mut lines, "mod ", mod_line, 0);
    let n = lines.len();
    insert_after_last_decl(&mut lines, "pub use ", use_line, n);
    Some(finish(&lines))
}


proof fn lemma_last_decl_bound(ls: Seq<Seq<char>>, prefix: Seq<char>)
    ensures
        last_decl(ls, prefix) matches Some(i) ==> 0 <= i < ls.len(),
    decreases ls.len(),
{
    if ls.len() > 0 && !is_decl_line(ls.last(), prefix) {
        lemma_last_decl_bound(ls.drop_last(), prefix);
    }
}

/// The inserted line stands at the index `insert_after_last` gives it.
proof fn lemma_insert_after_last_holds(ls: Seq<Seq<char>>, prefix: Seq<char>, line: Seq<char>, default: int)
    requires
        0 <= default <= ls.len(),
    ensures
        ({
            let k = match last_decl(ls, prefix) {
                Some(i) => i + 1,
                None => default,
            };
            &&& 0 <= k <= ls.len()
            &&& insert_after_last(ls, prefix, line, default)[k] == line
            &&& insert_after_last(ls, prefix, line, default).len() == ls.len() + 1
        }),
{
    lemma_last_decl_bound(ls, prefix);
}

/// `s` holds no line feed.
pub open spec fn no_newline(s: Seq<char>) -> bool {
    forall|i: int| 0 <= i < s.len() ==> #[trigger] s[i] != '\n'
}

/// No line of `ls` holds a line feed.
pub open spec fn lines_plain(ls: Seq<Seq<char>>) -> bool {
    forall|i: int| 0 <= i < ls.len() ==> no_newline(#[trigger] ls[i])
}

/// The lines that `str::lines` reads back from `with_final_newline(join_lines(ls))`:
/// each line without one final carriage return, and no final empty line.
pub open spec fn lines_read_back(ls: Seq<Seq<char>>) -> Seq<Seq<char>> {
    let m = if ls.len() >= 2 && ls.last().len() == 0 { ls.len() - 1 } else { ls.len() as int };
    Seq::new(m as nat, |i: int| strip_cr(ls[i]))
}

proof fn lemma_scan_append_plain(s: Seq<char>, t: Seq<char>)
    requires
        no_newline(t),
    ensures
        line_scan(s + t) == (line_scan(s).0, line_scan(s).1 + t),
    decreases t.len(),
{
    if t.len() == 0 {
        assert(s + t =~= s);
        assert(line_scan(s).1 + t =~= line_scan(s).1);
    } else {
        let t0 = t.drop_last();
        assert forall|i: int| 0 <= i < t0.len() implies #[trigger] t0[i] != '\n' by {
            assert(t0[i] == t[i]);
        }
        lemma_scan_append_plain(s, t0);
        assert((s + t).drop_last() =~= s + t0);
        assert((s + t).last() == t[t.len() - 1]);
        assert((line_scan(s).1 + t0).push(t.last()) =~= line_scan(s).1 + t);
    }
}

proof fn lemma_scan_newline(s: Seq<char>)
    ensures
        line_scan(s.push('\n')) == (line_scan(s).0.push(strip_cr(line_scan(s).1)), Seq::<char>::empty()),
{
    assert(s.push('\n').drop_last() =~= s);
}

proof fn lemma_scan_join(ls: Seq<Seq<char>>)
    requires
        ls.len() > 0,
        lines_plain(ls),
    ensures
        line_scan(join_lines(ls)) == (Seq::new((ls.len() - 1) as nat, |i: int| strip_cr(ls[i])), ls.last()),
        ls.last().len() > 0 ==> join_lines(ls).len() > 0 && join_lines(ls).last() == ls.last().last(),
        ls.last().len() == 0 && ls.len() >= 2 ==> join_lines(ls).len() > 0 && join_lines(ls).last() == '\n',
        ls.last().len() == 0 && ls.len() == 1 ==> join_lines(ls).len() == 0,
    decreases ls.len(),
{
    assert(no_newline(ls[ls.len() - 1]));
    if ls.len() == 1 {
        lemma_scan_append_plain(Seq::<char>::empty(), ls[0]);
        assert(Seq::<char>::empty() + ls[0] =~= ls[0]);
        assert(Seq::<char>::empty() + ls[0] =~= ls[0]);
        assert(line_scan(Seq::<char>::empty()) == (Seq::<Seq<char>>::empty(), Seq::<char>::empty()));
        assert(Seq::new(0, |i: int| strip_cr(ls[i])) =~= Seq::<Seq<char>>::empty());
    } else {
        let dl = ls.drop_last();
        assert forall|i: int| 0 <= i < dl.len() implies no_newline(#[trigger] dl[i]) by {
            assert(dl[i] == ls[i]);
        }
        lemma_scan_join(dl);
        let j0 = join_lines(dl);
        lemma_scan_newline(j0);
        lemma_scan_append_plain(j0.push('\n'), ls.last());
        assert(Seq::new((ls.len() - 1) as nat, |i: int| strip_cr(ls[i])) =~= Seq::new(
            (dl.len() - 1) as nat,
            |i: int| strip_cr(dl[i]),
        ).push(strip_cr(dl.last())));
        assert(Seq::<char>::empty() + ls.last() =~= ls.last());
        let j = join_lines(ls);
        assert(j == j0.push('\n') + ls.last());
        if ls.last().len() > 0 {
            assert(j.last() == ls.last().last());
        } else {
            assert(j =~= j0.push('\n'));
        }
    }
}

/// Joining lines that hold no line feed, ending the text with one, and
/// reading its lines back gives the lines without a final carriage return,
/// and without a final empty line.
proof fn lemma_lines_read_back(ls: Seq<Seq<char>>)
    requires
        ls.len() > 0,
        lines_plain(ls),
    ensures
        lines_of(with_final_newline(join_lines(ls))) == lines_read_back(ls),
{
    lemma_scan_join(ls);
    let j = join_lines(ls);
    let n = ls.len();
    let d = Seq::new((n - 1) as nat, |i: int| strip_cr(ls[i]));
    assert(no_newline(ls[n - 1]));
    if ls.last().len() > 0 {
        assert(ls.last().last() == ls[n - 1][ls[n - 1].len() - 1]);
        assert(with_final_newline(j) == j.push('\n'));
        lemma_scan_newline(j);
        assert(lines_of(with_final_newline(j)) =~= d.push(strip_cr(ls.last())));
        assert(d.push(strip_cr(ls.last())) =~= lines_read_back(ls));
    } else if n >= 2 {
        assert(with_final_newline(j) == j);
        assert(lines_of(j) == d);
        assert(d =~= lines_read_back(ls));
    } else {
        assert(j =~= Seq::<char>::empty());
        assert(with_final_newline(j) =~= Seq::<char>::empty().push('\n'));
        lemma_scan_newline(Seq::<char>::empty());
        assert(line_scan(Seq::<char>::empty()) == (Seq::<Seq<char>>::empty(), Seq::<char>::empty()));
        assert(lines_of(with_final_newline(j)) =~= lines_read_back(ls));
    }
}

proof fn lemma_scan_plain(s: Seq<char>)
    ensures
        lines_plain(line_scan(s).0),
        no_newline(line_scan(s).1),
    decreases s.len(),
{
    if s.len() > 0 {
        lemma_scan_plain(s.drop_last());
        let (d, c) = line_scan(s.drop_last());
        if s.last() == '\n' {
            assert forall|i: int| 0 <= i < strip_cr(c).len() implies #[trigger] strip_cr(c)[i] != '\n' by {
                assert(strip_cr(c)[i] == c[i]);
            }
            assert forall|i: int| 0 <= i < d.push(strip_cr(c)).len() implies no_newline(#[trigger] d.push(strip_cr(c))[i]) by {
                if i < d.len() {
                    assert(d.push(strip_cr(c))[i] == d[i]);
                }
            }
        } else {
            assert forall|i: int| 0 <= i < c.push(s.last()).len() implies #[trigger] c.push(s.last())[i] != '\n' by {
                if i < c.len() {
                    assert(c.push(s.last())[i] == c[i]);
                }
            }
        }
    }
}

/// No line that `str::lines` yields holds a line feed.
proof fn lemma_lines_plain(s: Seq<char>)
    ensures
        lines_plain(lines_of(s)),
{
    lemma_scan_plain(s);
    let (d, c) = line_scan(s);
    assert forall|i: int| 0 <= i < lines_of(s).len() implies no_newline(#[trigger] lines_of(s)[i]) by {
        if i < d.len() {
            assert(lines_of(s)[i] == d[i]);
        }
    }
}

proof fn lemma_insert_plain(ls: Seq<Seq<char>>, k: int, line: Seq<char>)
    requires
        lines_plain(ls),
        no_newline(line),
        0 <= k <= ls.len(),
    ensures
        lines_plain(ls.insert(k, line)),
{
    assert forall|i: int| 0 <= i < ls.insert(k, line).len() implies no_newline(#[trigger] ls.insert(k, line)[i]) by {
        if i < k {
            assert(ls.insert(k, line)[i] == ls[i]);
        } else if i > k {
            assert(ls.insert(k, line)[i] == ls[i - 1]);
        }
    }
}

/// A declaration `{head}{name}{tail}` whose head starts with a letter, whose
/// tail ends with `;`, and whose parts hold no line feed is one plain line:
/// no line feed, no indentation, no final carriage return, not a comment, and
/// it holds itself.
proof fn lemma_decl_plain(decl: Seq<char>)
    requires
        no_newline(decl),
        decl.len() > 0,
        'a' <= decl[0] <= 'z',
        decl.last() == ';',
    ensures
        trim_start_ws(decl) == decl,
        strip_cr(decl) == decl,
        !is_decl_line(decl, "//"@),
        contains_seq(decl, decl),
{
    reveal_strlit("//");
    assert(decl.subrange(0, decl.len() as int) =~= decl);
    assert(decl.subrange(0int, 0int + decl.len()) == decl);
    if is_decl_line(decl, "//"@) {
        assert(decl.subrange(0, 2)[0] == decl[0]);
    }
}

proof fn lemma_concat_plain(a: Seq<char>, b: Seq<char>)
    requires
        no_newline(a),
        no_newline(b),
    ensures
        no_newline(a + b),
{
    assert forall|i: int| 0 <= i < (a + b).len() implies #[trigger] (a + b)[i] != '\n' by {
        if i < a.len() {
            assert((a + b)[i] == a[i]);
        } else {
            assert((a + b)[i] == b[i - a.len()]);
        }
    }
}

proof fn lemma_literal_plain()
    ensures
        no_newline("pub mod "@),
        no_newline("mod "@),
        no_newline("pub use "@),
        no_newline("::"@),
        no_newline(";"@),
        "pub mod "@[0] == 'p',
        "mod "@[0] == 'm',
        "pub use "@[0] == 'p',
        ";"@.len() == 1,
        ";"@[0] == ';',
{
    reveal_strlit("pub mod ");
    reveal_strlit("mod ");
    reveal_strlit("pub use ");
    reveal_strlit("::");
    reveal_strlit(";");
}

proof fn lemma_domain_line_plain(snake: Seq<char>)
    requires
        no_newline(snake),
    ensures
        domain_mod_line(snake).len() > 0,
        no_newline(domain_mod_line(snake)),
        trim_start_ws(domain_mod_line(snake)) == domain_mod_line(snake),
        !is_decl_line(domain_mod_line(snake), "//"@),
        contains_seq(domain_mod_line(snake), domain_mod_line(snake)),
        strip_cr(domain_mod_line(snake)) == domain_mod_line(snake),
{
    lemma_literal_plain();
    reveal_strlit("pub mod ");
    lemma_concat_plain("pub mod "@, snake);
    lemma_concat_plain("pub mod "@ + snake, ";"@);
    let d = domain_mod_line(snake);
    assert(d[0] == "pub mod "@[0]);
    assert(d.last() == ";"@[0]);
    lemma_decl_plain(d);
}

proof fn lemma_extractor_lines_plain(snake: Seq<char>, struct_name: Seq<char>)
    requires
        no_newline(snake),
        no_newline(struct_name),
    ensures
        extractor_mod_line(snake).len() > 0,
        extractor_use_line(snake, struct_name).len() > 0,
        no_newline(extractor_mod_line(snake)),
        trim_start_ws(extractor_mod_line(snake)) == extractor_mod_line(snake),
        !is_decl_line(extractor_mod_line(snake), "//"@),
        contains_seq(extractor_mod_line(snake), extractor_mod_line(snake)),
        strip_cr(extractor_mod_line(snake)) == extractor_mod_line(snake),
        no_newline(extractor_use_line(snake, struct_name)),
        trim_start_ws(extractor_use_line(snake, struct_name)) == extractor_use_line(snake, struct_name),
        !is_decl_line(extractor_use_line(snake, struct_name), "//"@),
        contains_seq(extractor_use_line(snake, struct_name), extractor_use_line(snake, struct_name)),
        strip_cr(extractor_use_line(snake, struct_name)) == extractor_use_line(snake, struct_name),
{
    lemma_literal_plain();
    reveal_strlit("mod ");
    reveal_strlit("pub use ");
    lemma_concat_plain("mod "@, snake);
    lemma_concat_plain("mod "@ + snake, ";"@);
    let m = extractor_mod_line(snake);
    assert(m[0] == "mod "@[0]);
    assert(m.last() == ";"@[0]);
    lemma_decl_plain(m);
    lemma_concat_plain("pub use "@, snake);
    lemma_concat_plain("pub use "@ + snake, "::"@);
    lemma_concat_plain("pub use "@ + snake + "::"@, struct_name);
    lemma_concat_plain("pub use "@ + snake + "::"@ + struct_name, ";"@);
    let u = extractor_use_line(snake, struct_name);
    assert(u[0] == "pub use "@[0]);
    assert(u.last() == ";"@[0]);
    lemma_decl_plain(u);
}

/// Joining plain lines one of which is the declaration `d` gives a text whose
/// lines, read back, are those lines, and which declares `d`.
#[verifier::spinoff_prover]
proof fn lemma_joined_declares(ls: Seq<Seq<char>>, k: int, d: Seq<char>)
    requires
        ls.len() > 0,
        lines_plain(ls),
        0 <= k < ls.len(),
        ls[k] == d,
        d.len() > 0,
        strip_cr(d) == d,
        !is_decl_line(d, "//"@),
        contains_seq(d, d),
    ensures
        lines_of(with_final_newline(join_lines(ls))) == lines_read_back(ls),
        declares(with_final_newline(join_lines(ls)), d),
        with_final_newline(join_lines(ls)).len() > 0,
        with_final_newline(join_lines(ls)).last() == '\n',
{
    let t = with_final_newline(join_lines(ls));
    lemma_lines_read_back(ls);
    let back = lines_read_back(ls);
    assert(k < back.len()) by {
        if ls.len() >= 2 && ls.last().len() == 0 {
            assert(k != ls.len() - 1);
        }
    }
    assert(back[k] == strip_cr(ls[k]));
    let lt = lines_of(t);
    assert(lt[k] == d);
    assert(!is_decl_line(lt[k], "//"@) && contains_seq(lt[k], d));
    assert(declares(t, d));
    assert(t.len() > 0 && t.last() == '\n');
}

/// Registering a domain edits `domains/mod.rs` so that its lines, read back,
/// are the old lines (without a final carriage return or a final empty line)
/// with the declaration as a line of its own; the text ends with a line feed,
/// and a second update finds the declaration and leaves the file alone.
pub proof fn lemma_domains_mod_update_once(existing: Seq<char>, snake: Seq<char>)
    requires
        no_newline(snake),
    ensures
        domains_mod_update(existing, snake) matches Some(t) ==> {
            &&& lines_of(t) == lines_read_back(
                insert_after_last(lines_of(existing), "pub mod "@, domain_mod_line(snake), lines_of(existing).len() as int),
            )
            &&& declares(t, domain_mod_line(snake))
            &&& t.len() > 0 && t.last() == '\n'
            &&& domains_mod_update(t, snake) is None
        },
{
    if !declares(existing, domain_mod_line(snake)) {
        let ls = lines_of(existing);
        let d = domain_mod_line(snake);
        let ins = insert_after_last(ls, "pub mod "@, d, ls.len() as int);
        lemma_insert_after_last_holds(ls, "pub mod "@, d, ls.len() as int);
        let k = match last_decl(ls, "pub mod "@) {
            Some(i) => i + 1,
            None => ls.len() as int,
        };
        lemma_lines_plain(existing);
        lemma_domain_line_plain(snake);
        lemma_insert_plain(ls, k, d);
        lemma_joined_declares(ins, k, d);
    }
}

/// Registering an extractor edits its `mod.rs` so that its lines, read back,
/// are the old lines (without a final carriage return or a final empty line)
/// with the `mod` and `pub use` declarations as lines of their own; the text
/// ends with a line feed, and a second update finds the `mod` line and leaves
/// the file alone.
#[verifier::spinoff_prover]
pub proof fn lemma_extractors_mod_update_once(existing: Seq<char>, snake: Seq<char>, struct_name: Seq<char>)
    requires
        no_newline(snake),
        no_newline(struct_name),
    ensures
        extractors_mod_update(existing, snake, struct_name) matches Some(t) ==> {
            &&& lines_of(t) == lines_read_back(extractor_lines(existing, snake, struct_name))
            &&& declares(t, extractor_mod_line(snake))
            &&& declares(t, extractor_use_line(snake, struct_name))
            &&& t.len() > 0 && t.last() == '\n'
            &&& extractors_mod_update(t, snake, struct_name) is None
        },
{
    if !declares(existing, extractor_mod_line(snake)) {
        let ls = lines_of(existing);
        let ml = extractor_mod_line(snake);
        let ul = extractor_use_line(snake, struct_name);
        lemma_lines_plain(existing);
        lemma_extractor_lines_plain(snake, struct_name);
        let ls1 = insert_after_last(ls, "mod "@, ml, 0);
        lemma_insert_after_last_holds(ls, "mod "@, ml, 0);
        let k1 = match last_decl(ls, "mod "@) {
            Some(i) => i + 1,
            None => 0,
        };
        lemma_insert_plain(ls, k1, ml);
        let ls2 = insert_after_last(ls1, "pub use "@, ul, ls1.len() as int);
        lemma_insert_after_last_holds(ls1, "pub use "@, ul, ls1.len() as int);
        let k2 = match last_decl(ls1, "pub use "@) {
            Some(i) => i + 1,
            None => ls1.len() as int,
        };
        lemma_insert_plain(ls1, k2, ul);
        assert(ls2 == ls1.insert(k2, ul));
        let k1b = if k1 < k2 { k1 } else { k1 + 1 };
        assert(ls2[k1b] == ml);
        assert(extractor_lines(existing, snake, struct_name) == ls2);
        lemma_joined_declares(ls2, k1b, ml);
        lemma_joined_declares(ls2, k2, ul);
    }
}

/// A domain update leaves `domains/mod.rs` alone exactly when a line that is
/// not a `//` comment already holds the whole declaration `pub mod {snake};`;
/// otherwise it gives a new text, which declares the domain whenever the name
/// holds no line feed.
pub proof fn lemma_domains_mod_update_skips_only_declared(existing: Seq<char>, snake: Seq<char>)
    ensures
        (domains_mod_update(existing, snake) is None) <==> declares(existing, "pub mod "@ + snake + ";"@),
        no_newline(snake) && !declares(existing, "pub mod "@ + snake + ";"@) ==> (domains_mod_update(
            existing,
            snake,
        ) matches Some(t) && declares(t, "pub mod "@ + snake + ";"@)),
{
    if no_newline(snake) {
        lemma_domains_mod_update_once(existing, snake);
    }
}

/// An extractor update leaves its `mod.rs` alone exactly when a line that is
/// not a `//` comment already holds the whole declaration `mod {snake};`;
/// otherwise it gives a new text, which declares both `mod {snake};` and
/// `pub use {snake}::{struct_name};` whenever the names hold no line feed.
pub proof fn lemma_extractors_mod_update_skips_only_declared(
    existing: Seq<char>,
    snake: Seq<char>,
    struct_name: Seq<char>,
)
    ensures
        (extractors_mod_update(existing, snake, struct_name) is None) <==> declares(
            existing,
            "mod "@ + snake + ";"@,
        ),
        no_newline(snake) && no_newline(struct_name) && !declares(existing, "mod "@ + snake + ";"@) ==> (
        extractors_mod_update(existing, snake, struct_name) matches Some(t) && declares(
            t,
            "mod "@ + snake + ";"@,
        ) && declares(t, "pub use "@ + snake + "::"@ + struct_name + ";"@)),
{
    if no_newline(snake) && no_newline(struct_name) {
        lemma_extractors_mod_update_once(existing, snake, struct_name);
    }
}

proof fn lemma_last_decl_is_last(ls: Seq<Seq<char>>, prefix: Seq<char>)
    ensures
        last_decl(ls, prefix) matches Some(i) ==> 0 <= i < ls.len() && is_decl_line(ls[i], prefix) && (
        forall|j: int| i < j < ls.len() ==> !is_decl_line(#[trigger] ls[j], prefix)),
        last_decl(ls, prefix) is None ==> forall|j: int|
            0 <= j < ls.len() ==> !is_decl_line(#[trigger] ls[j], prefix),
    decreases ls.len(),
{
    if ls.len() > 0 {
        assert(ls.last() == ls[ls.len() - 1]);
        if !is_decl_line(ls.last(), prefix) {
            let t = ls.drop_last();
            lemma_last_decl_is_last(t, prefix);
            if let Some(i) = last_decl(ls, prefix) {
                assert(t[i] == ls[i]);
                assert forall|j: int| i < j < ls.len() implies !is_decl_line(#[trigger] ls[j], prefix) by {
                    if j < t.len() {
                        assert(t[j] == ls[j]);
                    }
                }
            } else {
                assert forall|j: int| 0 <= j < ls.len() implies !is_decl_line(#[trigger] ls[j], prefix) by {
                    if j < t.len() {
                        assert(t[j] == ls[j]);
                    }
                }
            }
        }
    }
}

/// Where a declaration line goes: right after the last line that begins
/// (indentation aside) with `prefix`, so that no such line follows it; or at
/// `default` when no line begins with `prefix`.
pub proof fn lemma_insert_after_last_position(
    ls: Seq<Seq<char>>,
    prefix: Seq<char>,
    line: Seq<char>,
    default: int,
)
    requires
        0 <= default <= ls.len(),
    ensures
        exists|k: int|
            0 <= k <= ls.len() && #[trigger] ls.insert(k, line) == insert_after_last(ls, prefix, line, default)
                && (forall|j: int| k <= j < ls.len() ==> !is_decl_line(#[trigger] ls[j], prefix)) && ((k > 0
                && is_decl_line(ls[k - 1], prefix)) || (k == default && forall|j: int|
                0 <= j < ls.len() ==> !is_decl_line(#[trigger] ls[j], prefix))),
{
    lemma_last_decl_is_last(ls, prefix);
    let k = match last_decl(ls, prefix) {
        Some(i) => i + 1,
        None => default,
    };
    assert(ls.insert(k, line) == insert_after_last(ls, prefix, line, default));
}

} // verus!
