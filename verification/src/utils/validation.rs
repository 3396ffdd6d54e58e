//! Validators for model names, session identifiers and paths, and a sanitizer.

use vstd::prelude::*;

use crate::utils::text::{
    alphanumeric, ascii_graphic, char_is_alphanumeric, char_is_whitespace, is_ascii_graphic, push_char,
    unicode_whitespace,
};

verus! {

broadcast use vstd::string::group_string_axioms;

/// A character allowed in a model name.
pub open spec fn model_name_char(c: char) -> bool {
    alphanumeric(c) || c == '-' || c == '_' || c == '/'
}

/// A character allowed in a session identifier.
pub open spec fn session_id_char(c: char) -> bool {
    alphanumeric(c) || c == '-' || c == '_'
}

/// A printable ASCII character (`'!'` through `'~'`) or the space.
pub open spec fn printable_or_space(c: char) -> bool {
    ('!' <= c && c <= '~') || c == ' '
}

/// A character that the sanitizer keeps.
pub open spec fn kept_by_sanitizer(c: char) -> bool {
    ascii_graphic(c) || unicode_whitespace(c)
}

/// The characters of `s` that the sanitizer keeps, in their order.
pub open spec fn sanitized(s: Seq<char>) -> Seq<char> {
    s.filter(|c: char| kept_by_sanitizer(c))
}

/// A model name is non-empty and made only of alphanumerics, `-`, `_` and `/`.
pub fn validate_model_name(model: &str) -> (ok: bool)
    ensures
        ok == (model@.len() > 0 && forall|i: int| 0 <= i < model@.len() ==> model_name_char(#[trigger] model@[i])),
{
    if model.is_empty() {
        return false;
    }
    let mut all = true;
    for c in it: model.chars()
        invariant
            it.seq() == model@,
            all == (forall|j: int| 0 <= j < it.index() ==> model_name_char(#[trigger] model@[j])),
    {
        let good = char_is_alphanumeric(c) || c == '-' || c == '_' || c == '/';
        all = all && good;
    }
    all
}


/// A session identifier is 1 to 256 bytes long (UTF-8) and made only of
/// alphanumerics, `-` and `_`.
pub fn validate_session_id(session_id: &str) -> (ok: bool)
    ensures
        ok == (session_id@.len() > 0 && session_id.len() <= 256
            && forall|i: int| 0 <= i < session_id@.len() ==> session_id_char(#[trigger] session_id@[i])),
{
    if session_id.is_empty() || session_id.len() > 256 {
        return false;
    }
    let mut all = true;
    for c in it: session_id.chars()
        invariant
            it.seq() == session_id@,
            all == (forall|j: int| 0 <= j < it.index() ==> session_id_char(#[trigger] session_id@[j])),
    {
        let good = char_is_alphanumeric(c) || c == '-' || c == '_';
        all = all && good;
    }
    all
}

/// A path is non-empty and holds no NUL character.
pub fn validate_path(path: &str) -> (ok: bool)
    ensures
        ok == (path@.len() > 0 && !path@.contains('\0')),
{
    if path.is_empty() {
        return false;
    }
    let mut has_nul = false;
    for c in it: path.chars()
        invariant
            it.seq() == path@,
            has_nul == (exists|j: int| 0 <= j < it.index() && path@[j] == '\0'),
    {
        if c == '\0' {
            has_nul = true;
        }
    }
    !has_nul
}

/// Keeps the printable ASCII characters and the white space of `input`, in order,
/// and drops every other character.
pub fn sanitize_string(input: &str) -> (out: String)
    ensures
        out@ == sanitized(input@),
        (forall|i: int| 0 <= i < input@.len() ==> printable_or_space(#[trigger] input@[i])) ==> out@ == input@,
{
    let mut out = String::new();
    for c in it: input.chars()
        invariant
            it.seq() == input@,
            out@ == sanitized(input@.take(it.index() as int)),
    {
        proof {
            reveal_with_fuel(Seq::<_>::filter, 1);
            assert(input@.take(it.index() + 1).drop_last() =~= input@.take(it.index() as int));
            assert(input@.take(it.index() + 1).last() == c);
        }
        if is_ascii_graphic(c) || char_is_whitespace(c) {
            push_char(&mut out, c);
        }
    }
    proof {
        assert(input@.take(input@.len() as int) =~= input@);
        if forall|i: int| 0 <= i < input@.len() ==> printable_or_space(#[trigger] input@[i]) {
            lemma_printable_text_is_unchanged(input@);
        }
    }
    out
}


proof fn lemma_filter_keeps_all(s: Seq<char>, pred: spec_fn(char) -> bool)
    requires
        forall|i: int| 0 <= i < s.len() ==> pred(#[trigger] s[i]),
    ensures
        s.filter(pred) == s,
    decreases s.len(),
{
    reveal_with_fuel(Seq::<_>::filter, 1);
    if s.len() > 0 {
        assert forall|i: int| 0 <= i < s.drop_last().len() implies pred(#[trigger] s.drop_last()[i]) by {
            assert(s.drop_last()[i] == s[i]);
        }
        lemma_filter_keeps_all(s.drop_last(), pred);
        assert(s.drop_last().push(s.last()) =~= s);
    }
}

/// Sanitizing keeps only characters the sanitizer keeps, so sanitizing twice
/// gives what sanitizing once gives.
pub proof fn lemma_sanitize_is_idempotent(s: Seq<char>)
    ensures
        forall|i: int| 0 <= i < sanitized(s).len() ==> kept_by_sanitizer(#[trigger] sanitized(s)[i]),
        sanitized(sanitized(s)) == sanitized(s),
{
    let pred = |c: char| kept_by_sanitizer(c);
    broadcast use vstd::seq_lib::group_filter_ensures;
    assert forall|i: int| 0 <= i < sanitized(s).len() implies kept_by_sanitizer(#[trigger] sanitized(s)[i]) by {
        s.lemma_filter_pred(pred, i);
    }
    lemma_filter_keeps_all(sanitized(s), pred);
}

/// The characters allowed in names: every ASCII letter of either case and
/// every ASCII digit is allowed in a model name and in a session identifier;
/// `-` and `_` are allowed in both and `/` in model names only; every other
/// ASCII character is allowed in neither.
pub proof fn lemma_allowed_name_characters(c: char)
    ensures
        ('A' <= c && c <= 'Z') || ('a' <= c && c <= 'z') || ('0' <= c && c <= '9') || c == '-' || c == '_'
            ==> model_name_char(c) && session_id_char(c),
        c == '/' ==> model_name_char(c) && !session_id_char(c),
        c <= '\u{7f}' && !(('A' <= c && c <= 'Z') || ('a' <= c && c <= 'z') || ('0' <= c && c <= '9'))
            && c != '-' && c != '_' && c != '/' ==> !model_name_char(c) && !session_id_char(c),
{
}

/// Every printable ASCII character and the ASCII white space (tab, line feed,
/// vertical tab, form feed, carriage return, space) is kept; the other ASCII
/// control characters and DEL are dropped.
pub proof fn lemma_sanitizer_keeps_printable_ascii(c: char)
    ensures
        ('!' <= c && c <= '~') || c == ' ' || ('\u{9}' <= c && c <= '\u{d}') ==> kept_by_sanitizer(c),
        c < ' ' && !('\u{9}' <= c && c <= '\u{d}') ==> !kept_by_sanitizer(c),
        c == '\u{7f}' ==> !kept_by_sanitizer(c),
{
}

/// Sanitizing text made only of printable ASCII characters and spaces gives
/// it back unchanged.
pub proof fn lemma_printable_text_is_unchanged(s: Seq<char>)
    requires
        forall|i: int| 0 <= i < s.len() ==> printable_or_space(#[trigger] s[i]),
    ensures
        sanitized(s) == s,
{
    let pred = |c: char| kept_by_sanitizer(c);
    assert forall|i: int| 0 <= i < s.len() implies pred(#[trigger] s[i]) by {
        assert(printable_or_space(s[i]));
    }
    lemma_filter_keeps_all(s, pred);
}

} // verus!
