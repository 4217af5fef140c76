//! Characters and strings: the Unicode queries of `char`, and conversions
//! between `&str`, `String` and `Vec<char>`.
//!
//! The `external_body` functions here call std's `char` and `String` methods;
//! their contracts are believed, not proved. On ASCII they state the result
//! exactly (as std's implementation computes it); beyond ASCII they name it,
//! since the Unicode tables behind it take pages to state.

use vstd::prelude::*;

verus! {

/// The Unicode `Uppercase` property of a non-ASCII character.
pub uninterp spec fn unicode_uppercase(c: char) -> bool;

/// The Unicode `Alphabetic` or `Numeric` property of a non-ASCII character.
pub uninterp spec fn unicode_alphanumeric(c: char) -> bool;

/// The Unicode `White_Space` property of a non-ASCII character.
pub uninterp spec fn unicode_whitespace(c: char) -> bool;

/// The full Unicode lowercase mapping of a non-ASCII character.
pub uninterp spec fn unicode_lowercase(c: char) -> Seq<char>;

/// The full Unicode uppercase mapping of a non-ASCII character.
pub uninterp spec fn unicode_uppercase_mapping(c: char) -> Seq<char>;

pub open spec fn is_ascii_char(c: char) -> bool {
    (c as u32) < 128
}

pub open spec fn is_ascii_upper(c: char) -> bool {
    'A' <= c && c <= 'Z'
}

pub open spec fn is_ascii_lower(c: char) -> bool {
    'a' <= c && c <= 'z'
}

pub open spec fn is_ascii_digit(c: char) -> bool {
    '0' <= c && c <= '9'
}

/// What `char::is_uppercase` answers.
pub open spec fn is_upper(c: char) -> bool {
    if is_ascii_char(c) {
        is_ascii_upper(c)
    } else {
        unicode_uppercase(c)
    }
}

/// What `char::is_alphanumeric` answers.
pub open spec fn is_alnum(c: char) -> bool {
    if is_ascii_char(c) {
        is_ascii_upper(c) || is_ascii_lower(c) || is_ascii_digit(c)
    } else {
        unicode_alphanumeric(c)
    }
}

/// What `char::is_whitespace` answers.
pub open spec fn is_ws(c: char) -> bool {
    if is_ascii_char(c) {
        c == ' ' || c == '\t' || c == '\n' || c == '\x0B' || c == '\x0C' || c == '\r'
    } else {
        unicode_whitespace(c)
    }
}

/// The characters that `char::to_lowercase` yields.
pub open spec fn lower(c: char) -> Seq<char> {
    if is_ascii_char(c) {
        if is_ascii_upper(c) {
            seq![((c as u32) + 32) as char]
        } else {
            seq![c]
        }
    } else {
        unicode_lowercase(c)
    }
}

/// The characters that `char::to_uppercase` yields.
pub open spec fn upper(c: char) -> Seq<char> {
    if is_ascii_char(c) {
        if is_ascii_lower(c) {
            seq![((c as u32) - 32) as char]
        } else {
            seq![c]
        }
    } else {
        unicode_uppercase_mapping(c)
    }
}

/// `char::is_uppercase`: the `Uppercase` property; on ASCII, exactly `A`..=`Z`.
#[verifier::external_body]
pub(crate) fn char_is_uppercase(c: char) -> (r: bool)
    ensures
        is_ascii_char(c) ==> (r <==> is_ascii_upper(c)),
        !is_ascii_char(c) ==> r == unicode_uppercase(c),
{
    c.is_uppercase()
}

/// `char::is_alphanumeric`: alphabetic or numeric; on ASCII, exactly letters and digits.
#[verifier::external_body]
pub(crate) fn char_is_alphanumeric(c: char) -> (r: bool)
    ensures
        is_ascii_char(c) ==> (r <==> (is_ascii_upper(c) || is_ascii_lower(c) || is_ascii_digit(c))),
        !is_ascii_char(c) ==> r == unicode_alphanumeric(c),
{
    c.is_alphanumeric()
}

/// `char::is_whitespace`: the `White_Space` property; on ASCII, exactly space,
/// tab, line feed, vertical tab, form feed and carriage return.
#[verifier::external_body]
pub(crate) fn char_is_whitespace(c: char) -> (r: bool)
    ensures
        is_ascii_char(c) ==> (r <==> (c == ' ' || c == '\t' || c == '\n' || c == '\x0B'
            || c == '\x0C' || c == '\r')),
        !is_ascii_char(c) ==> r == unicode_whitespace(c),
{
    c.is_whitespace()
}

/// `char::to_lowercase`, its characters collected: one or more characters, as
/// documented; on ASCII, the one character that `to_ascii_lowercase` gives.
#[verifier::external_body]
pub(crate) fn char_to_lowercase(c: char) -> (r: Vec<char>)
    ensures
        r@.len() > 0,
        is_ascii_char(c) && is_ascii_upper(c) ==> r@ == seq![((c as u32) + 32) as char],
        is_ascii_char(c) && !is_ascii_upper(c) ==> r@ == seq![c],
        !is_ascii_char(c) ==> r@ == unicode_lowercase(c),
{
    c.to_lowercase().collect()
}

/// `char::to_uppercase`, its characters collected: one or more characters, as
/// documented; on ASCII, the one character that `to_ascii_uppercase` gives.
#[verifier::external_body]
pub(crate) fn char_to_uppercase(c: char) -> (r: Vec<char>)
    ensures
        r@.len() > 0,
        is_ascii_char(c) && is_ascii_lower(c) ==> r@ == seq![((c as u32) - 32) as char],
        is_ascii_char(c) && !is_ascii_lower(c) ==> r@ == seq![c],
        !is_ascii_char(c) ==> r@ == unicode_uppercase_mapping(c),
{
    c.to_uppercase().collect()
}

/// `String::push`: appends one character.
#[verifier::external_body]
pub(crate) fn string_push(s: &mut String, c: char)
    ensures
        final(s)@ == old(s)@.push(c),
{
    s.push(c)
}

/// The characters of `s`, in order.
pub(crate) fn chars_of(s: &str) -> (r: Vec<char>)
    ensures
        r@ == s@,
{
    let n = s.unicode_len();
    let mut r: Vec<char> = Vec::new();
    let mut i: usize = 0;
    while i < n
        invariant
            n == s@.len(),
            i <= n,
            r@ == s@.take(i as int),
        decreases n - i,
    {
        r.push(s.get_char(i));
        i = i + 1;
        assert(r@ =~= s@.take(i as int));
    }
    assert(r@ =~= s@);
    r
}

/// The string made of the characters `v[lo..hi]`.
pub(crate) fn string_from_chars(v: &Vec<char>, lo: usize, hi: usize) -> (r: String)
    requires
        lo <= hi <= v@.len(),
    ensures
        r@ == v@.subrange(lo as int, hi as int),
{
    let mut r = String::new();
    let mut i: usize = lo;
    while i < hi
        invariant
            lo <= i <= hi <= v@.len(),
            r@ == v@.subrange(lo as int, i as int),
        decreases hi - i,
    {
        string_push(&mut r, v[i]);
        i = i + 1;
        assert(r@ =~= v@.subrange(lo as int, i as int));
    }
    r
}

} // verus!
