//! Character classification and string building used by the validators.

use vstd::prelude::*;
use vstd::string::StrSliceExecFns;

verus! {

/// Whether `c` is alphanumeric in the Unicode sense that `char::is_alphanumeric` uses
/// (alphabetic or numeric); the Unicode tables behind it are not restated here.
pub uninterp spec fn unicode_alphanumeric(c: char) -> bool;

/// An ASCII letter or digit.
pub open spec fn ascii_alphanumeric(c: char) -> bool {
    ('0' <= c && c <= '9') || ('a' <= c && c <= 'z') || ('A' <= c && c <= 'Z')
}

/// Alphanumeric as `char::is_alphanumeric` answers: among ASCII characters
/// exactly the letters and digits, elsewhere the Unicode property.
pub open spec fn alphanumeric(c: char) -> bool {
    if c <= '\u{7f}' {
        ascii_alphanumeric(c)
    } else {
        unicode_alphanumeric(c)
    }
}

/// Calls `char::is_alphanumeric`: the Unicode property named by
/// `unicode_alphanumeric` (alphabetic or numeric). Among ASCII characters the
/// alphabetic ones are exactly the letters and the numeric ones exactly the
/// digits, so there the answer is whether `c` is a letter or a digit; the
/// contract claims both.
#[verifier::external_body]
pub(crate) fn char_is_alphanumeric(c: char) -> (b: bool)
    ensures
        b == unicode_alphanumeric(c),
        c <= '\u{7f}' ==> (b == ascii_alphanumeric(c)),
{
    c.is_alphanumeric()
}

/// White space in the sense of `char::is_whitespace`: the Unicode
/// `White_Space` property, which holds of exactly these code points: tab
/// through carriage return (U+0009 to U+000D), the space, U+0085, U+00A0,
/// U+1680, U+2000 to U+200A, U+2028, U+2029, U+202F, U+205F and U+3000.
pub open spec fn unicode_whitespace(c: char) -> bool {
    ||| ('\u{9}' <= c && c <= '\u{d}')
    ||| c == ' '
    ||| c == '\u{85}'
    ||| c == '\u{a0}'
    ||| c == '\u{1680}'
    ||| ('\u{2000}' <= c && c <= '\u{200a}')
    ||| c == '\u{2028}'
    ||| c == '\u{2029}'
    ||| c == '\u{202f}'
    ||| c == '\u{205f}'
    ||| c == '\u{3000}'
}

/// Whether `c` is white space; the same answer as `char::is_whitespace`.
pub(crate) fn char_is_whitespace(c: char) -> (b: bool)
    ensures
        b == unicode_whitespace(c),
{
    ('\u{9}' <= c && c <= '\u{d}') || c == ' ' || c == '\u{85}' || c == '\u{a0}' || c == '\u{1680}'
        || ('\u{2000}' <= c && c <= '\u{200a}') || c == '\u{2028}' || c == '\u{2029}' || c == '\u{202f}'
        || c == '\u{205f}' || c == '\u{3000}'
}

/// Calls `String::push`, which appends one character at the end of the string.
#[verifier::external_body]
pub(crate) fn push_char(s: &mut String, c: char)
    ensures
        final(s)@ == old(s)@.push(c),
{
    s.push(c)
}

/// A printable ASCII character other than the space: `'!'` through `'~'`.
pub open spec fn ascii_graphic(c: char) -> bool {
    '!' <= c && c <= '~'
}

/// Same answer as `char::is_ascii_graphic`.
pub fn is_ascii_graphic(c: char) -> (b: bool)
    ensures
        b == ascii_graphic(c),
{
    '!' <= c && c <= '~'
}


/// The characters of `s`, in order.
pub(crate) fn char_vec(s: &str) -> (v: Vec<char>)
    ensures
        v@ == s@,
{
    let ghost text = s@;
    let mut chars: Vec<char> = Vec::new();
    for c in it: s.chars()
        invariant
            it.seq() == text,
            chars@ == text.take(it.index() as int),
    {
        chars.push(c);
        proof {
            assert(text.take(it.index() + 1) =~= text.take(it.index() as int).push(c));
        }
    }
    proof {
        assert(text.take(text.len() as int) =~= text);
    }
    chars
}

/// Whether two strings hold the same characters; the same answer as `==` on `str`.
pub(crate) fn str_eq(a: &str, b: &str) -> (r: bool)
    ensures
        r == (a@ == b@),
{
    let va = char_vec(a);
    let vb = char_vec(b);
    if va.len() != vb.len() {
        return false;
    }
    let n = va.len();
    for i in 0..n
        invariant
            n == va@.len(),
            n == vb@.len(),
            va@ == a@,
            vb@ == b@,
            forall|j: int| 0 <= j < i ==> va@[j] == vb@[j],
    {
        if va[i] != vb[i] {
            return false;
        }
    }
    proof {
        assert(va@ =~= vb@);
    }
    true
}

/// Whether `s` starts with `prefix`, compared character by character.
pub fn str_starts_with(s: &str, prefix: &str) -> (b: bool)
    ensures
        b == prefix@.is_prefix_of(s@),
{
    let n = prefix.unicode_len();
    if s.unicode_len() < n {
        return false;
    }
    for i in 0..n
        invariant
            n == prefix@.len(),
            n <= s@.len(),
            forall|j: int| 0 <= j < i ==> prefix@[j] == s@[j],
    {
        if s.get_char(i) != prefix.get_char(i) {
            return false;
        }
    }
    true
}


/// The index of the first character of `s` that is not white space (the
/// length of `s` when there is none).
pub open spec fn first_non_space(s: Seq<char>) -> int
    decreases s.len(),
{
    if s.len() == 0 {
        0
    } else if unicode_whitespace(s[0]) {
        1 + first_non_space(s.drop_first())
    } else {
        0
    }
}

/// One past the index of the last character of `s` that is not white space
/// (0 when there is none).
pub open spec fn end_non_space(s: Seq<char>) -> int
    decreases s.len(),
{
    if s.len() == 0 {
        0
    } else if unicode_whitespace(s.last()) {
        end_non_space(s.drop_last())
    } else {
        s.len() as int
    }
}

/// `s` without its leading and trailing white space, as `str::trim` gives it.
pub open spec fn trimmed(s: Seq<char>) -> Seq<char> {
    if first_non_space(s) >= end_non_space(s) {
        Seq::empty()
    } else {
        s.subrange(first_non_space(s), end_non_space(s))
    }
}

proof fn lemma_first_non_space(s: Seq<char>)
    ensures
        0 <= first_non_space(s) <= s.len(),
        forall|i: int| 0 <= i < first_non_space(s) ==> unicode_whitespace(#[trigger] s[i]),
        first_non_space(s) < s.len() ==> !unicode_whitespace(s[first_non_space(s)]),
    decreases s.len(),
{
    if s.len() > 0 && unicode_whitespace(s[0]) {
        lemma_first_non_space(s.drop_first());
        assert forall|i: int| 0 <= i < first_non_space(s) implies unicode_whitespace(#[trigger] s[i]) by {
            if i > 0 {
                assert(s[i] == s.drop_first()[i - 1]);
            }
        }
    }
}

proof fn lemma_end_non_space(s: Seq<char>)
    ensures
        0 <= end_non_space(s) <= s.len(),
        forall|i: int| end_non_space(s) <= i < s.len() ==> unicode_whitespace(#[trigger] s[i]),
        end_non_space(s) > 0 ==> !unicode_whitespace(s[end_non_space(s) - 1]),
    decreases s.len(),
{
    if s.len() > 0 && unicode_whitespace(s.last()) {
        lemma_end_non_space(s.drop_last());
        assert forall|i: int| end_non_space(s) <= i < s.len() implies unicode_whitespace(#[trigger] s[i]) by {
            if i < s.len() - 1 {
                assert(s[i] == s.drop_last()[i]);
            }
        }
    }
}

/// Removes the leading and trailing white space of `s`.
pub fn trim_text(s: &str) -> (t: String)
    ensures
        t@ == trimmed(s@),
{
    let ghost v = s@;
    let chars = char_vec(s);
    proof {
        lemma_first_non_space(v);
        lemma_end_non_space(v);
    }
    let n = chars.len();
    let ghost first = first_non_space(v);
    let ghost last = end_non_space(v);
    let mut start: usize = 0;
    while start < n && char_is_whitespace(chars[start])
        invariant
            n == v.len(),
            chars@ == v,
            0 <= first <= n,
            forall|i: int| 0 <= i < first ==> unicode_whitespace(#[trigger] v[i]),
            first < n ==> !unicode_whitespace(v[first]),
            start <= first,
        decreases n - start,
    {
        start = start + 1;
    }
    assert(start == first);
    let mut end: usize = n;
    while end > start && char_is_whitespace(chars[end - 1])
        invariant
            n == v.len(),
            chars@ == v,
            start == first,
            0 <= last <= n,
            forall|i: int| last <= i < n ==> unicode_whitespace(#[trigger] v[i]),
            last > 0 ==> !unicode_whitespace(v[last - 1]),
            start <= end <= n,
            end >= last || (end == start && last <= start),
        decreases end - start,
    {
        end = end - 1;
    }
    let mut out = String::new();
    let mut i = start;
    while i < end
        invariant
            chars@ == v,
            start <= i <= end <= n,
            n == v.len(),
            out@ == v.subrange(start as int, i as int),
        decreases end - i,
    {
        push_char(&mut out, chars[i]);
        proof {
            assert(v.subrange(start as int, i + 1) =~= v.subrange(start as int, i as int).push(v[i as int]));
        }
        i = i + 1;
    }
    proof {
        if end > start {
            assert(end == last);
        }
        assert(out@ =~= trimmed(v));
    }
    out
}

} // verus!
