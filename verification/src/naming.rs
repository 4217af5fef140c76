//! Identifier naming: `snake_case` for modules and files, `PascalCase` for types.

use vstd::prelude::*;
use crate::text::{
    char_is_alphanumeric, char_is_uppercase, char_to_lowercase, char_to_uppercase, chars_of,
    is_alnum, is_ascii_char, is_ascii_digit, is_ascii_lower, is_ascii_upper, is_upper, lower, string_from_chars,
    string_push, upper,
};

verus! {

/// The scan that builds a snake_case name before its edges are trimmed: each
/// uppercase character becomes its lowercase mapping, preceded by `_` when it
/// follows a lowercase letter or a digit; other alphanumeric characters are
/// kept; any other character becomes one `_`, unless the output is empty or
/// already ends with `_`. The flag tells whether the last input character was
/// a kept alphanumeric one.
pub open spec fn snake_scan(s: Seq<char>) -> (Seq<char>, bool)
    decreases s.len(),
{
    if s.len() == 0 {
        (seq![], false)
    } else {
        let (out, prev) = snake_scan(s.drop_last());
        let c = s.last();
        if is_upper(c) {
            ((if prev { out.push('_') } else { out }) + lower(c), false)
        } else if is_alnum(c) {
            (out.push(c), true)
        } else {
            (if out.len() > 0 && out.last() != '_' { out.push('_') } else { out }, false)
        }
    }
}

/// `s` without its leading `c` characters.
pub open spec fn trim_start_char(s: Seq<char>, c: char) -> Seq<char>
    decreases s.len(),
{
    if s.len() > 0 && s[0] == c {
        trim_start_char(s.drop_first(), c)
    } else {
        s
    }
}

/// `s` without its trailing `c` characters.
pub open spec fn trim_end_char(s: Seq<char>, c: char) -> Seq<char>
    decreases s.len(),
{
    if s.len() > 0 && s.last() == c {
        trim_end_char(s.drop_last(), c)
    } else {
        s
    }
}

/// The snake_case form of `s`: the scan, with `_` trimmed from both ends.
pub open spec fn snake_case(s: Seq<char>) -> Seq<char> {
    trim_end_char(trim_start_char(snake_scan(s).0, '_'), '_')
}

/// What the `i`-th character of a snake_case name contributes to its
/// PascalCase form: nothing for `_`, the uppercase mapping for the first
/// character of a word, the character itself otherwise.
pub open spec fn pascal_piece(s: Seq<char>, i: int) -> Seq<char> {
    if s[i] == '_' {
        seq![]
    } else if i == 0 || s[i - 1] == '_' {
        upper(s[i])
    } else {
        seq![s[i]]
    }
}

/// The pieces of the first `n` characters of `s`, concatenated.
pub open spec fn pascal_prefix(s: Seq<char>, n: nat) -> Seq<char>
    decreases n,
{
    if n == 0 {
        seq![]
    } else {
        pascal_prefix(s, (n - 1) as nat) + pascal_piece(s, n - 1)
    }
}

/// The words of `s` (its `_`-separated, non-empty parts), each with its first
/// character uppercased, concatenated.
pub open spec fn pascal_of_words(s: Seq<char>) -> Seq<char> {
    pascal_prefix(s, s.len())
}

/// The PascalCase form of `s`.
pub open spec fn pascal_case(s: Seq<char>) -> Seq<char> {
    pascal_of_words(snake_case(s))
}

proof fn lemma_trim_start_skip(s: Seq<char>, c: char, lo: int)
    requires
        0 <= lo < s.len(),
        s[lo] == c,
    ensures
        trim_start_char(s.subrange(lo, s.len() as int), c)
            == trim_start_char(s.subrange(lo + 1, s.len() as int), c),
{
    assert(s.subrange(lo, s.len() as int).drop_first() =~= s.subrange(lo + 1, s.len() as int));
}

proof fn lemma_trim_end_skip(s: Seq<char>, c: char, lo: int, hi: int)
    requires
        0 <= lo < hi <= s.len(),
        s[hi - 1] == c,
    ensures
        trim_end_char(s.subrange(lo, hi), c) == trim_end_char(s.subrange(lo, hi - 1), c),
{
    assert(s.subrange(lo, hi).drop_last() =~= s.subrange(lo, hi - 1));
}

/// `s` with `c` trimmed from both ends, as a `String`.
fn trim_both(s: &Vec<char>, c: char) -> (r: String)
    ensures
        r@ == trim_end_char(trim_start_char(s@, c), c),
{
    let n = s.len();
    let mut lo: usize = 0;
    assert(s@.subrange(0, n as int) =~= s@);
    while lo < n && s[lo] == c
        invariant
            lo <= n == s@.len(),
            trim_start_char(s@, c) == trim_start_char(s@.subrange(lo as int, n as int), c),
        decreases n - lo,
    {
        proof {
            lemma_trim_start_skip(s@, c, lo as int);
        }
        lo = lo + 1;
    }
    let mut hi: usize = n;
    while hi > lo && s[hi - 1] == c
        invariant
            lo <= hi <= n == s@.len(),
            trim_end_char(trim_start_char(s@, c), c) == trim_end_char(
                s@.subrange(lo as int, hi as int),
                c,
            ),
        decreases hi,
    {
        proof {
            lemma_trim_end_skip(s@, c, lo as int, hi as int);
        }
        hi = hi - 1;
    }
    string_from_chars(s, lo, hi)
}

/// Converts any input ("Auth", "auth", "auth-token") to snake_case.
pub fn to_snake_case(input: &str) -> (r: String)
    ensures
        r@ == snake_case(input@),
{
    let chars = chars_of(input);
    let n = chars.len();
    let mut out: Vec<char> = Vec::new();
    let mut prev_lower_or_digit = false;
    let mut i: usize = 0;
    while i < n
        invariant
            i <= n == chars@.len(),
            chars@ == input@,
            snake_scan(input@.take(i as int)) == (out@, prev_lower_or_digit),
        decreases n - i,
    {
        let c = chars[i];
        assert(input@.take(i + 1).drop_last() =~= input@.take(i as int));
        let ghost before = out@;
        if char_is_uppercase(c) {
            if prev_lower_or_digit {
                out.push('_');
            }
            let low = char_to_lowercase(c);
            let ghost mid = out@;
            let mut j: usize = 0;
            while j < low.len()
                invariant
                    j <= low@.len(),
                    out@ == mid + low@.take(j as int),
                decreases low@.len() - j,
            {
                out.push(low[j]);
                j = j + 1;
                assert(out@ =~= mid + low@.take(j as int));
            }
            assert(low@.take(low@.len() as int) =~= low@);
            prev_lower_or_digit = false;
        } else if char_is_alphanumeric(c) {
            out.push(c);
            prev_lower_or_digit = true;
        } else {
            if !(out.len() > 0 && out[out.len() - 1] == '_') {
                if out.len() > 0 {
                    out.push('_');
                }
            }
            prev_lower_or_digit = false;
        }
        i = i + 1;
    }
    assert(input@.take(n as int) =~= input@);
    trim_both(&out, '_')
}

/// Converts any input to PascalCase, e.g. "auth-token" -> "AuthToken".
pub fn to_pascal_case(input: &str) -> (r: String)
    ensures
        r@ == pascal_case(input@),
{
    let snake = to_snake_case(input);
    let chars = chars_of(snake.as_str());
    let n = chars.len();
    let mut out = String::new();
    let mut i: usize = 0;
    while i < n
        invariant
            i <= n == chars@.len(),
            chars@ == snake@,
            out@ == pascal_prefix(snake@, i as nat),
        decreases n - i,
    {
        let c = chars[i];
        if c == '_' {
        } else if i == 0 || chars[i - 1] == '_' {
            let up = char_to_uppercase(c);
            let ghost mid = out@;
            let mut j: usize = 0;
            while j < up.len()
                invariant
                    j <= up@.len(),
                    out@ == mid + up@.take(j as int),
                decreases up@.len() - j,
            {
                string_push(&mut out, up[j]);
                j = j + 1;
                assert(out@ =~= mid + up@.take(j as int));
            }
            assert(up@.take(up@.len() as int) =~= up@);
        } else {
            string_push(&mut out, c);
        }
        i = i + 1;
    }
    out
}


/// Every character of `s` is ASCII.
pub open spec fn all_ascii(s: Seq<char>) -> bool {
    forall|i: int| 0 <= i < s.len() ==> #[trigger] is_ascii_char(s[i])
}

/// `s` holds a letter or a digit.
pub open spec fn has_alnum(s: Seq<char>) -> bool {
    exists|i: int| 0 <= i < s.len() && #[trigger] is_alnum(s[i])
}

/// `w` is a snake_case identifier: lowercase ASCII letters, digits and single
/// `_` separators, with no `_` at either end.
pub open spec fn is_snake_name(w: Seq<char>) -> bool {
    &&& forall|i: int|
        0 <= i < w.len() ==> is_ascii_lower(#[trigger] w[i]) || is_ascii_digit(w[i]) || w[i] == '_'
    &&& w.len() > 0 ==> w[0] != '_' && w.last() != '_'
    &&& forall|i: int| 0 <= i < w.len() - 1 ==> !(#[trigger] w[i] == '_' && w[i + 1] == '_')
}

proof fn lemma_scan_ascii(s: Seq<char>)
    requires
        all_ascii(s),
    ensures
        ({
            let (out, prev) = snake_scan(s);
            &&& forall|i: int|
                0 <= i < out.len() ==> is_ascii_lower(#[trigger] out[i]) || is_ascii_digit(out[i])
                    || out[i] == '_'
            &&& out.len() > 0 ==> out[0] != '_'
            &&& forall|i: int| 0 <= i < out.len() - 1 ==> !(#[trigger] out[i] == '_' && out[i + 1] == '_')
            &&& prev ==> out.len() > 0 && out.last() != '_'
            &&& (exists|i: int| 0 <= i < out.len() && #[trigger] out[i] != '_') <==> has_alnum(s)
        }),
    decreases s.len(),
{
    if s.len() > 0 {
        let t = s.drop_last();
        assert forall|i: int| 0 <= i < t.len() implies #[trigger] is_ascii_char(t[i]) by {
            assert(is_ascii_char(s[i]));
        }
        lemma_scan_ascii(t);
        let (out0, prev0) = snake_scan(t);
        let (out, prev) = snake_scan(s);
        let c = s.last();
        assert(is_ascii_char(s[s.len() - 1]));
        assert(has_alnum(s) <==> has_alnum(t) || is_alnum(c)) by {
            if has_alnum(s) {
                let i = choose|i: int| 0 <= i < s.len() && #[trigger] is_alnum(s[i]);
                if i < s.len() - 1 {
                    assert(is_alnum(t[i]));
                }
            }
            if has_alnum(t) {
                let i = choose|i: int| 0 <= i < t.len() && #[trigger] is_alnum(t[i]);
                assert(is_alnum(s[i]));
            }
            if is_alnum(c) {
                assert(is_alnum(s[s.len() - 1]));
            }
        }
        if is_upper(c) {
            let mid = if prev0 { out0.push('_') } else { out0 };
            let low = ((c as u32) + 32) as char;
            assert(out =~= mid.push(low));
            assert(is_ascii_lower(low));
            assert(out[out.len() - 1] != '_');
            assert(exists|i: int| 0 <= i < out.len() && #[trigger] out[i] != '_');
            assert forall|i: int| 0 <= i < out.len() - 1 implies !(#[trigger] out[i] == '_' && out[i + 1] == '_') by {
                if i < out0.len() - 1 {
                    assert(out[i] == out0[i] && out[i + 1] == out0[i + 1]);
                }
            }
            assert forall|i: int| 0 <= i < out.len() implies is_ascii_lower(#[trigger] out[i]) || is_ascii_digit(out[i]) || out[i] == '_' by {
                if i < out0.len() {
                    assert(out[i] == out0[i]);
                }
            }
        } else if is_alnum(c) {
            assert(out =~= out0.push(c));
            assert(out[out.len() - 1] == c);
            assert(exists|i: int| 0 <= i < out.len() && #[trigger] out[i] != '_');
            assert forall|i: int| 0 <= i < out.len() - 1 implies !(#[trigger] out[i] == '_' && out[i + 1] == '_') by {
                if i < out0.len() - 1 {
                    assert(out[i] == out0[i] && out[i + 1] == out0[i + 1]);
                }
            }
            assert forall|i: int| 0 <= i < out.len() implies is_ascii_lower(#[trigger] out[i]) || is_ascii_digit(out[i]) || out[i] == '_' by {
                if i < out0.len() {
                    assert(out[i] == out0[i]);
                }
            }
        } else {
            if out0.len() > 0 && out0.last() != '_' {
                assert(out =~= out0.push('_'));
                assert(exists|i: int| 0 <= i < out.len() && #[trigger] out[i] != '_') by {
                    assert(out[out0.len() - 1] != '_');
                }
                assert((exists|i: int| 0 <= i < out0.len() && #[trigger] out0[i] != '_')) by {
                    assert(out0[out0.len() - 1] != '_');
                }
                assert forall|i: int| 0 <= i < out.len() - 1 implies !(#[trigger] out[i] == '_' && out[i + 1] == '_') by {
                    if i < out0.len() - 1 {
                        assert(out[i] == out0[i] && out[i + 1] == out0[i + 1]);
                    }
                }
                assert forall|i: int| 0 <= i < out.len() implies is_ascii_lower(#[trigger] out[i]) || is_ascii_digit(out[i]) || out[i] == '_' by {
                    if i < out0.len() {
                        assert(out[i] == out0[i]);
                    }
                }
            } else {
                assert(out == out0);
            }
        }
    }
}

proof fn lemma_trim_start_shape(s: Seq<char>, c: char)
    ensures
        exists|k: int|
            0 <= k <= s.len() && trim_start_char(s, c) == s.subrange(k, s.len() as int) && (forall|
                j: int,
            | 0 <= j < k ==> #[trigger] s[j] == c),
        trim_start_char(s, c).len() > 0 ==> trim_start_char(s, c)[0] != c,
        s.len() > 0 && s[0] != c ==> trim_start_char(s, c) == s,
    decreases s.len(),
{
    if s.len() > 0 && s[0] == c {
        let t = s.drop_first();
        lemma_trim_start_shape(t, c);
        let k = choose|k: int|
            0 <= k <= t.len() && trim_start_char(t, c) == t.subrange(k, t.len() as int) && (forall|
                j: int,
            | 0 <= j < k ==> #[trigger] t[j] == c);
        assert(t.subrange(k, t.len() as int) =~= s.subrange(k + 1, s.len() as int));
        assert forall|j: int| 0 <= j < k + 1 implies #[trigger] s[j] == c by {
            if j > 0 {
                assert(s[j] == t[j - 1]);
            }
        }
    } else {
        assert(s.subrange(0, s.len() as int) =~= s);
    }
}

proof fn lemma_trim_end_shape(s: Seq<char>, c: char)
    ensures
        exists|h: int|
            0 <= h <= s.len() && trim_end_char(s, c) == s.subrange(0, h) && (forall|j: int|
                h <= j < s.len() ==> #[trigger] s[j] == c),
        trim_end_char(s, c).len() > 0 ==> trim_end_char(s, c).last() != c,
        s.len() > 0 && s.last() != c ==> trim_end_char(s, c) == s,
        s.len() == 0 ==> trim_end_char(s, c) == s,
    decreases s.len(),
{
    if s.len() > 0 && s.last() == c {
        let t = s.drop_last();
        lemma_trim_end_shape(t, c);
        let h = choose|h: int|
            0 <= h <= t.len() && trim_end_char(t, c) == t.subrange(0, h) && (forall|j: int|
                h <= j < t.len() ==> #[trigger] t[j] == c);
        assert(t.subrange(0, h) =~= s.subrange(0, h));
        assert forall|j: int| h <= j < s.len() implies #[trigger] s[j] == c by {
            if j < s.len() - 1 {
                assert(s[j] == t[j]);
            }
        }
    } else {
        assert(s.subrange(0, s.len() as int) =~= s);
    }
}

/// Whatever the input, `to_snake_case` never begins or ends with `_`.
pub proof fn lemma_snake_case_trimmed(s: Seq<char>)
    ensures
        snake_case(s).len() > 0 ==> snake_case(s)[0] != '_' && snake_case(s).last() != '_',
{
    let out = snake_scan(s).0;
    let t = trim_start_char(out, '_');
    lemma_trim_start_shape(out, '_');
    lemma_trim_end_shape(t, '_');
    let h = choose|h: int|
        0 <= h <= t.len() && trim_end_char(t, '_') == t.subrange(0, h) && (forall|j: int|
            h <= j < t.len() ==> #[trigger] t[j] == '_');
    if snake_case(s).len() > 0 {
        assert(snake_case(s)[0] == t[0]);
    }
}

/// For an ASCII input, `to_snake_case` gives a snake_case identifier, and an
/// empty one exactly when the input holds no letter or digit.
pub proof fn lemma_snake_case_is_snake_name(s: Seq<char>)
    requires
        all_ascii(s),
    ensures
        is_snake_name(snake_case(s)),
        snake_case(s).len() == 0 <==> !has_alnum(s),
{
    lemma_scan_ascii(s);
    let out = snake_scan(s).0;
    lemma_trim_start_shape(out, '_');
    assert(trim_start_char(out, '_') == out);
    lemma_trim_end_shape(out, '_');
    let w = snake_case(s);
    let h = choose|h: int|
        0 <= h <= out.len() && trim_end_char(out, '_') == out.subrange(0, h) && (forall|j: int|
            h <= j < out.len() ==> #[trigger] out[j] == '_');
    assert(w == out.subrange(0, h));
    assert forall|i: int| 0 <= i < w.len() implies is_ascii_lower(#[trigger] w[i]) || is_ascii_digit(w[i]) || w[i] == '_' by {
        assert(w[i] == out[i]);
    }
    assert forall|i: int| 0 <= i < w.len() - 1 implies !(#[trigger] w[i] == '_' && w[i + 1] == '_') by {
        assert(w[i] == out[i] && w[i + 1] == out[i + 1]);
    }
    if w.len() > 0 {
        assert(w[0] == out[0]);
    }
    if has_alnum(s) {
        let i = choose|i: int| 0 <= i < out.len() && #[trigger] out[i] != '_';
        assert(i < h);
        assert(w[i] == out[i]);
    } else {
        if w.len() > 0 {
            assert(out[0] != '_');
        }
    }
}

/// A snake_case identifier is its own snake_case form.
pub proof fn lemma_snake_case_fixes_snake_names(w: Seq<char>)
    requires
        is_snake_name(w),
    ensures
        snake_case(w) == w,
{
    lemma_scan_of_snake_name(w, w.len() as int);
    assert(w.take(w.len() as int) =~= w);
    lemma_trim_start_shape(w, '_');
    lemma_trim_end_shape(w, '_');
}

proof fn lemma_scan_of_snake_name(w: Seq<char>, k: int)
    requires
        is_snake_name(w),
        0 <= k <= w.len(),
    ensures
        snake_scan(w.take(k)) == (w.take(k), k > 0 && w[k - 1] != '_'),
    decreases k,
{
    if k > 0 {
        lemma_scan_of_snake_name(w, k - 1);
        assert(w.take(k).drop_last() =~= w.take(k - 1));
        let c = w[k - 1];
        assert(w.take(k).last() == c);
        if c == '_' {
            assert(k - 1 > 0);
            assert(!(w[k - 2] == '_' && w[k - 1] == '_'));
        }
        assert(w.take(k - 1).push(c) =~= w.take(k));
    }
}

/// For an ASCII input, converting to snake_case twice gives what converting once gives.
pub proof fn lemma_snake_case_idempotent(s: Seq<char>)
    requires
        all_ascii(s),
    ensures
        snake_case(snake_case(s)) == snake_case(s),
{
    lemma_snake_case_is_snake_name(s);
    lemma_snake_case_fixes_snake_names(snake_case(s));
}

/// `w` consists of ASCII letters and digits.
pub open spec fn is_ascii_alnum_word(w: Seq<char>) -> bool {
    forall|i: int|
        0 <= i < w.len() ==> is_ascii_upper(#[trigger] w[i]) || is_ascii_lower(w[i]) || is_ascii_digit(w[i])
}

proof fn lemma_pascal_prefix_chars(w: Seq<char>, n: nat)
    requires
        is_snake_name(w),
        n <= w.len(),
    ensures
        is_ascii_alnum_word(pascal_prefix(w, n)),
        n > 0 ==> pascal_prefix(w, n).len() > 0,
        n > 0 ==> is_ascii_upper(pascal_prefix(w, n)[0]) || is_ascii_digit(pascal_prefix(w, n)[0]),
    decreases n,
{
    if n > 0 {
        let m = (n - 1) as nat;
        lemma_pascal_prefix_chars(w, m);
        let pre = pascal_prefix(w, m);
        let piece = pascal_piece(w, n - 1);
        let c = w[n - 1];
        assert(is_ascii_lower(c) || is_ascii_digit(c) || c == '_');
        if c != '_' {
            assert(is_ascii_char(c));
        }
        assert(is_ascii_alnum_word(piece));
        if m == 0 {
            assert(c != '_');
            assert(pascal_prefix(w, n) =~= piece);
            assert(piece.len() == 1);
        } else {
            assert(pascal_prefix(w, n)[0] == pre[0]);
        }
        assert forall|i: int| 0 <= i < pascal_prefix(w, n).len() implies is_ascii_upper(#[trigger] pascal_prefix(w, n)[i]) || is_ascii_lower(pascal_prefix(w, n)[i]) || is_ascii_digit(pascal_prefix(w, n)[i]) by {
            if i < pre.len() {
                assert(pascal_prefix(w, n)[i] == pre[i]);
            } else {
                assert(pascal_prefix(w, n)[i] == piece[i - pre.len()]);
            }
        }
    }
}

/// For an ASCII input, `to_pascal_case` gives ASCII letters and digits only,
/// beginning with an uppercase letter or a digit, and is empty exactly when
/// the snake_case form is.
pub proof fn lemma_pascal_case_is_alphanumeric(s: Seq<char>)
    requires
        all_ascii(s),
    ensures
        is_ascii_alnum_word(pascal_case(s)),
        pascal_case(s).len() == 0 <==> snake_case(s).len() == 0,
        pascal_case(s).len() > 0 ==> is_ascii_upper(pascal_case(s)[0]) || is_ascii_digit(pascal_case(s)[0]),
{
    lemma_snake_case_is_snake_name(s);
    lemma_pascal_prefix_chars(snake_case(s), snake_case(s).len());
}

/// `c` is neither alphanumeric nor uppercase: the scan turns it into a separator.
pub open spec fn is_separator(c: char) -> bool {
    !is_alnum(c) && !is_upper(c)
}

/// Every character of `s` is a separator.
pub open spec fn all_separators(s: Seq<char>) -> bool {
    forall|i: int| 0 <= i < s.len() ==> is_separator(#[trigger] s[i])
}

/// `s` holds a character the scan keeps as it is: alphanumeric, not uppercase.
pub open spec fn has_kept_char(s: Seq<char>) -> bool {
    exists|i: int| 0 <= i < s.len() && is_alnum(#[trigger] s[i]) && !is_upper(s[i])
}

proof fn lemma_scan_extends(s: Seq<char>)
    ensures
        s.len() > 0 ==> snake_scan(s.drop_last()).0.len() <= snake_scan(s).0.len(),
        s.len() > 0 ==> forall|i: int|
            0 <= i < snake_scan(s.drop_last()).0.len() ==> #[trigger] snake_scan(s).0[i]
                == snake_scan(s.drop_last()).0[i],
{
}

proof fn lemma_scan_emptiness(s: Seq<char>)
    ensures
        all_separators(s) ==> snake_scan(s).0.len() == 0,
        has_kept_char(s) ==> exists|i: int|
            0 <= i < snake_scan(s).0.len() && #[trigger] snake_scan(s).0[i] != '_',
    decreases s.len(),
{
    if s.len() > 0 {
        let t = s.drop_last();
        lemma_scan_emptiness(t);
        lemma_scan_extends(s);
        let out0 = snake_scan(t).0;
        let out = snake_scan(s).0;
        let c = s.last();
        if all_separators(s) {
            assert forall|i: int| 0 <= i < t.len() implies is_separator(#[trigger] t[i]) by {
                assert(t[i] == s[i]);
            }
            assert(is_separator(s[s.len() - 1]));
        }
        if has_kept_char(s) {
            let i = choose|i: int| 0 <= i < s.len() && is_alnum(#[trigger] s[i]) && !is_upper(s[i]);
            if i < s.len() - 1 {
                assert(is_alnum(t[i]) && !is_upper(t[i]));
                let j = choose|j: int| 0 <= j < out0.len() && #[trigger] out0[j] != '_';
                assert(out[j] == out0[j]);
            } else {
                assert(out =~= out0.push(c));
                if is_ascii_char(c) {
                } else {
                    assert(c != '_');
                }
                assert(out[out.len() - 1] != '_');
            }
        }
    }
}

/// Whatever the input, `to_snake_case` is empty when the input holds only
/// separators (no alphanumeric or uppercase character), and is not empty when
/// the input holds an alphanumeric character that is not uppercase.
pub proof fn lemma_snake_case_emptiness(s: Seq<char>)
    ensures
        all_separators(s) ==> snake_case(s).len() == 0,
        has_kept_char(s) ==> snake_case(s).len() > 0,
{
    lemma_scan_emptiness(s);
    let out = snake_scan(s).0;
    lemma_trim_start_shape(out, '_');
    let t = trim_start_char(out, '_');
    lemma_trim_end_shape(t, '_');
    if all_separators(s) {
        assert(out.len() == 0);
        assert(t == out);
    }
    if has_kept_char(s) {
        let i = choose|i: int| 0 <= i < out.len() && #[trigger] out[i] != '_';
        let k = choose|k: int|
            0 <= k <= out.len() && t == out.subrange(k, out.len() as int) && (forall|j: int|
                0 <= j < k ==> #[trigger] out[j] == '_');
        assert(i >= k);
        assert(t[i - k] == out[i]);
        let h = choose|h: int|
            0 <= h <= t.len() && trim_end_char(t, '_') == t.subrange(0, h) && (forall|j: int|
                h <= j < t.len() ==> #[trigger] t[j] == '_');
        assert(h > i - k);
    }
}

proof fn lemma_scan_congruent(x: Seq<char>, y: Seq<char>, b: Seq<char>)
    requires
        snake_scan(x) == snake_scan(y),
    ensures
        snake_scan(x + b) == snake_scan(y + b),
    decreases b.len(),
{
    if b.len() == 0 {
        assert(x + b =~= x);
        assert(y + b =~= y);
    } else {
        lemma_scan_congruent(x, y, b.drop_last());
        assert((x + b).drop_last() =~= x + b.drop_last());
        assert((y + b).drop_last() =~= y + b.drop_last());
        assert((x + b).last() == (y + b).last());
    }
}

proof fn lemma_scan_separators(a: Seq<char>, sep: Seq<char>)
    requires
        sep.len() > 0,
        all_separators(sep),
    ensures
        snake_scan(a + sep) == snake_scan(a.push('_')),
        !snake_scan(a + sep).1,
        snake_scan(a + sep).0.len() == 0 || snake_scan(a + sep).0.last() == '_',
    decreases sep.len(),
{
    assert(is_separator(sep[sep.len() - 1]));
    assert(is_separator('_'));
    if sep.len() == 1 {
        assert(a + sep =~= a.push(sep[0]));
        assert(a.push(sep[0]).drop_last() =~= a);
        assert(a.push('_').drop_last() =~= a);
    } else {
        let s0 = sep.drop_last();
        assert forall|i: int| 0 <= i < s0.len() implies is_separator(#[trigger] s0[i]) by {
            assert(s0[i] == sep[i]);
        }
        lemma_scan_separators(a, s0);
        assert((a + sep).drop_last() =~= a + s0);
        assert((a + sep).last() == sep[sep.len() - 1]);
        assert(a.push('_').drop_last() =~= a);
    }
}

proof fn lemma_trim_start_push(s: Seq<char>, c: char)
    requires
        s.len() > 0,
        s.last() != c,
    ensures
        trim_start_char(s.push(c), c) == trim_start_char(s, c).push(c),
    decreases s.len(),
{
    if s[0] == c {
        assert(s.len() > 1);
        assert(s.push(c).drop_first() =~= s.drop_first().push(c));
        lemma_trim_start_push(s.drop_first(), c);
    }
}

/// Any non-empty run of separators (characters neither alphanumeric nor
/// uppercase) acts like a single `_`, and is dropped at either end.
pub proof fn lemma_snake_case_separators(a: Seq<char>, sep: Seq<char>, b: Seq<char>)
    requires
        sep.len() > 0,
        all_separators(sep),
    ensures
        snake_case(a + sep + b) == snake_case(a + seq!['_'] + b),
        snake_case(sep + b) == snake_case(b),
        snake_case(a + sep) == snake_case(a),
{
    lemma_scan_separators(a, sep);
    assert(a + seq!['_'] =~= a.push('_'));
    lemma_scan_congruent(a + sep, a + seq!['_'], b);
    lemma_scan_separators(Seq::<char>::empty(), sep);
    assert(Seq::<char>::empty() + sep =~= sep);
    assert(Seq::<char>::empty().push('_').drop_last() =~= Seq::<char>::empty());
    assert(snake_scan(Seq::<char>::empty().push('_')) == snake_scan(Seq::<char>::empty()));
    lemma_scan_congruent(sep, Seq::<char>::empty(), b);
    assert(Seq::<char>::empty() + b =~= b);
    assert(a.push('_').drop_last() =~= a);
    let out = snake_scan(a).0;
    if out.len() > 0 && out.last() != '_' {
        lemma_trim_start_push(out, '_');
        let t = trim_start_char(out, '_');
        assert(t.push('_').drop_last() =~= t);
    }
}

/// `s` with its ASCII uppercase letters lowercased.
pub open spec fn ascii_lowercase(s: Seq<char>) -> Seq<char> {
    Seq::new(
        s.len(),
        |i: int|
            if is_ascii_upper(s[i]) {
                ((s[i] as u32) + 32) as char
            } else {
                s[i]
            },
    )
}

/// `s` without its `c` characters.
pub open spec fn remove_char(s: Seq<char>, c: char) -> Seq<char>
    decreases s.len(),
{
    if s.len() == 0 {
        s
    } else if s.last() == c {
        remove_char(s.drop_last(), c)
    } else {
        remove_char(s.drop_last(), c).push(s.last())
    }
}

proof fn lemma_pascal_prefix_lowercase(w: Seq<char>, n: nat)
    requires
        is_snake_name(w),
        n <= w.len(),
    ensures
        ascii_lowercase(pascal_prefix(w, n)) == remove_char(w.take(n as int), '_'),
    decreases n,
{
    if n == 0 {
        assert(ascii_lowercase(pascal_prefix(w, 0)) =~= Seq::<char>::empty());
        assert(w.take(0) =~= Seq::<char>::empty());
    } else {
        let m = (n - 1) as nat;
        lemma_pascal_prefix_lowercase(w, m);
        let pre = pascal_prefix(w, m);
        let piece = pascal_piece(w, n - 1);
        let c = w[n - 1];
        assert(w.take(n as int).drop_last() =~= w.take(m as int));
        assert(w.take(n as int).last() == c);
        assert(is_ascii_lower(c) || is_ascii_digit(c) || c == '_');
        if c != '_' {
            assert(is_ascii_char(c));
            assert(ascii_lowercase(piece) =~= seq![c]);
        } else {
            assert(piece =~= Seq::<char>::empty());
        }
        assert(ascii_lowercase(pre + piece) =~= ascii_lowercase(pre) + ascii_lowercase(piece));
    }
}

/// For an ASCII input, lowercasing `to_pascal_case` gives `to_snake_case`
/// without its `_` separators.
pub proof fn lemma_pascal_case_lowercase(s: Seq<char>)
    requires
        all_ascii(s),
    ensures
        ascii_lowercase(pascal_case(s)) == remove_char(snake_case(s), '_'),
{
    lemma_snake_case_is_snake_name(s);
    let w = snake_case(s);
    lemma_pascal_prefix_lowercase(w, w.len());
    assert(w.take(w.len() as int) =~= w);
}

/// Every word of the snake_case name `w` after the first starts with a
/// letter, and every word but the last has at least two characters.
pub open spec fn words_round_trip(w: Seq<char>) -> bool {
    forall|i: int|
        0 <= i < w.len() && #[trigger] w[i] == '_' ==> i >= 2 && w[i - 2] != '_' && i + 1 < w.len()
            && is_ascii_lower(w[i + 1])
}

/// The `i`-th character of `w` begins a word.
pub open spec fn word_start(w: Seq<char>, i: int) -> bool {
    i == 0 || w[i - 1] == '_'
}

/// What the scan holds after the first `n` characters of `w` have gone
/// through their PascalCase form.
pub open spec fn round_trip_state(w: Seq<char>, n: int) -> (Seq<char>, bool) {
    if n == 0 {
        (Seq::empty(), false)
    } else if w[n - 1] == '_' {
        (w.take(n - 1), true)
    } else if word_start(w, n - 1) && is_ascii_lower(w[n - 1]) {
        (w.take(n), false)
    } else {
        (w.take(n), true)
    }
}

proof fn lemma_round_trip_prefix(w: Seq<char>, n: nat)
    requires
        is_snake_name(w),
        words_round_trip(w),
        n <= w.len(),
    ensures
        snake_scan(pascal_prefix(w, n)) == round_trip_state(w, n as int),
    decreases n,
{
    if n > 0 {
        let m = (n - 1) as nat;
        lemma_round_trip_prefix(w, m);
        let pre = pascal_prefix(w, m);
        let c = w[m as int];
        assert(is_ascii_lower(c) || is_ascii_digit(c) || c == '_');
        assert(w.take(n as int) =~= w.take(m as int).push(c));
        if c == '_' {
            assert(pascal_piece(w, m as int) =~= Seq::<char>::empty());
            assert(pre + pascal_piece(w, m as int) =~= pre);
            assert(m >= 2 && w[m - 2] != '_');
            assert(w[m - 1] != '_');
        } else {
            assert(is_ascii_char(c));
            let x = if word_start(w, m as int) { upper(c) } else { seq![c] };
            assert(pascal_piece(w, m as int) == x);
            assert(x.len() == 1);
            let p = pre.push(x[0]);
            assert(pre + x =~= p);
            assert(p.drop_last() =~= pre);
            if word_start(w, m as int) && m > 0 {
                assert(w[m - 1] == '_');
                assert(is_ascii_lower(c));
                assert(w.take(m as int) =~= w.take(m - 1).push('_'));
                assert(w.take(m - 1).push('_') + lower(x[0]) =~= w.take(n as int));
            } else if word_start(w, m as int) {
                assert(Seq::<char>::empty() + lower(x[0]) =~= w.take(n as int));
            } else {
                assert(w[m - 1] != '_');
            }
        }
    }
}

/// For an ASCII input whose snake_case words after the first start with a
/// letter, and whose words but the last have two characters or more,
/// converting the PascalCase name back to snake_case gives the snake_case name.
pub proof fn lemma_pascal_snake_round_trip(s: Seq<char>)
    requires
        all_ascii(s),
        words_round_trip(snake_case(s)),
    ensures
        snake_case(pascal_case(s)) == snake_case(s),
{
    lemma_snake_case_is_snake_name(s);
    let w = snake_case(s);
    lemma_round_trip_prefix(w, w.len());
    assert(w.take(w.len() as int) =~= w);
    lemma_trim_start_shape(w, '_');
    lemma_trim_end_shape(w, '_');
    if w.len() > 0 {
        assert(w[w.len() - 1] != '_');
    }
}

/// The number of ASCII uppercase letters in `s`.
pub open spec fn count_upper(s: Seq<char>) -> nat
    decreases s.len(),
{
    if s.len() == 0 {
        0
    } else {
        count_upper(s.drop_last()) + if is_ascii_upper(s.last()) { 1nat } else { 0nat }
    }
}

/// The number of words among the first `n` characters of `w` that start with
/// a lowercase ASCII letter.
pub open spec fn letter_words(w: Seq<char>, n: nat) -> nat
    decreases n,
{
    if n == 0 {
        0
    } else {
        letter_words(w, (n - 1) as nat) + if word_start(w, n - 1) && is_ascii_lower(w[n - 1]) {
            1nat
        } else {
            0nat
        }
    }
}

proof fn lemma_pascal_prefix_capitals(w: Seq<char>, n: nat)
    requires
        is_snake_name(w),
        n <= w.len(),
    ensures
        count_upper(pascal_prefix(w, n)) == letter_words(w, n),
    decreases n,
{
    if n > 0 {
        let m = (n - 1) as nat;
        lemma_pascal_prefix_capitals(w, m);
        let pre = pascal_prefix(w, m);
        let c = w[m as int];
        assert(is_ascii_lower(c) || is_ascii_digit(c) || c == '_');
        if c == '_' {
            assert(pre + pascal_piece(w, m as int) =~= pre);
        } else {
            assert(is_ascii_char(c));
            let x = pascal_piece(w, m as int);
            assert(x.len() == 1);
            assert(pre + x =~= pre.push(x[0]));
            assert(pre.push(x[0]).drop_last() =~= pre);
        }
    }
}

/// For an ASCII input, `to_pascal_case` has one capital letter per word of
/// the snake_case name that starts with a letter.
pub proof fn lemma_pascal_case_capitals(s: Seq<char>)
    requires
        all_ascii(s),
    ensures
        count_upper(pascal_case(s)) == letter_words(snake_case(s), snake_case(s).len()),
{
    lemma_snake_case_is_snake_name(s);
    lemma_pascal_prefix_capitals(snake_case(s), snake_case(s).len());
}

/// The ASCII letters and digits of `s`, in order, lowercased.
pub open spec fn alnum_lowered(s: Seq<char>) -> Seq<char>
    decreases s.len(),
{
    if s.len() == 0 {
        s
    } else {
        let r = alnum_lowered(s.drop_last());
        let c = s.last();
        if is_ascii_upper(c) {
            r.push(((c as u32) + 32) as char)
        } else if is_ascii_lower(c) || is_ascii_digit(c) {
            r.push(c)
        } else {
            r
        }
    }
}

proof fn lemma_remove_concat(a: Seq<char>, b: Seq<char>, c: char)
    ensures
        remove_char(a + b, c) == remove_char(a, c) + remove_char(b, c),
    decreases b.len(),
{
    if b.len() == 0 {
        assert(a + b =~= a);
        assert(remove_char(a, c) + remove_char(b, c) =~= remove_char(a, c));
    } else {
        lemma_remove_concat(a, b.drop_last(), c);
        assert((a + b).drop_last() =~= a + b.drop_last());
        assert((a + b).last() == b.last());
        if b.last() != c {
            assert((remove_char(a, c) + remove_char(b.drop_last(), c)).push(b.last()) =~= remove_char(a, c)
                + remove_char(b.drop_last(), c).push(b.last()));
        }
    }
}

proof fn lemma_remove_only(s: Seq<char>, c: char)
    requires
        forall|i: int| 0 <= i < s.len() ==> #[trigger] s[i] == c,
    ensures
        remove_char(s, c) == Seq::<char>::empty(),
    decreases s.len(),
{
    if s.len() > 0 {
        assert(s.last() == s[s.len() - 1]);
        let t = s.drop_last();
        assert forall|i: int| 0 <= i < t.len() implies #[trigger] t[i] == c by {
            assert(t[i] == s[i]);
        }
        lemma_remove_only(t, c);
    }
}

proof fn lemma_scan_letters(s: Seq<char>)
    requires
        all_ascii(s),
    ensures
        remove_char(snake_scan(s).0, '_') == alnum_lowered(s),
    decreases s.len(),
{
    if s.len() > 0 {
        let t = s.drop_last();
        assert forall|i: int| 0 <= i < t.len() implies #[trigger] is_ascii_char(t[i]) by {
            assert(is_ascii_char(s[i]));
        }
        lemma_scan_letters(t);
        let (out0, prev0) = snake_scan(t);
        let c = s.last();
        assert(is_ascii_char(s[s.len() - 1]));
        let mid = if out0.len() > 0 && out0.last() != '_' { out0.push('_') } else { out0 };
        assert(out0.push('_').drop_last() =~= out0);
        assert(remove_char(mid, '_') == remove_char(out0, '_'));
        if is_upper(c) {
            let pre = if prev0 { out0.push('_') } else { out0 };
            let low = ((c as u32) + 32) as char;
            assert(pre + lower(c) =~= pre.push(low));
            assert(pre.push(low).drop_last() =~= pre);
            assert(remove_char(pre, '_') == remove_char(out0, '_'));
        } else if is_alnum(c) {
            assert(out0.push(c).drop_last() =~= out0);
        }
    }
}

/// For an ASCII input, `to_snake_case` without its `_` separators is the
/// input's letters and digits, in order, lowercased.
pub proof fn lemma_snake_case_letters(s: Seq<char>)
    requires
        all_ascii(s),
    ensures
        remove_char(snake_case(s), '_') == alnum_lowered(s),
{
    lemma_scan_letters(s);
    let out = snake_scan(s).0;
    lemma_trim_start_shape(out, '_');
    let k = choose|k: int|
        0 <= k <= out.len() && trim_start_char(out, '_') == out.subrange(k, out.len() as int) && (forall|
            j: int,
        | 0 <= j < k ==> #[trigger] out[j] == '_');
    let t = trim_start_char(out, '_');
    assert(out =~= out.subrange(0, k) + t);
    assert forall|j: int| 0 <= j < out.subrange(0, k).len() implies #[trigger] out.subrange(0, k)[j] == '_' by {
        assert(out.subrange(0, k)[j] == out[j]);
    }
    lemma_remove_only(out.subrange(0, k), '_');
    lemma_remove_concat(out.subrange(0, k), t, '_');
    assert(Seq::<char>::empty() + remove_char(t, '_') =~= remove_char(t, '_'));
    lemma_trim_end_shape(t, '_');
    let h = choose|h: int|
        0 <= h <= t.len() && trim_end_char(t, '_') == t.subrange(0, h) && (forall|j: int|
            h <= j < t.len() ==> #[trigger] t[j] == '_');
    assert(t =~= t.subrange(0, h) + t.subrange(h, t.len() as int));
    assert forall|j: int| 0 <= j < t.subrange(h, t.len() as int).len() implies #[trigger] t.subrange(h, t.len() as int)[j] == '_' by {
        assert(t.subrange(h, t.len() as int)[j] == t[h + j]);
    }
    lemma_remove_only(t.subrange(h, t.len() as int), '_');
    lemma_remove_concat(t.subrange(0, h), t.subrange(h, t.len() as int), '_');
    assert(remove_char(t.subrange(0, h), '_') + Seq::<char>::empty() =~= remove_char(t.subrange(0, h), '_'));
}

} // verus!
