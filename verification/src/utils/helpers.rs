//! Path and duration helpers.

use vstd::prelude::*;
use std::path::PathBuf;
use vstd::arithmetic::power2::{lemma2_to64, lemma2_to64_rest, pow2};

use crate::utils::text::push_char;

verus! {

/// Paths are carried through the library unchanged; their contents are not modelled.
#[verifier::external_type_specification]
#[verifier::external_body]
pub struct ExPathBuf(PathBuf);

/// The path that `PathBuf::from` builds from a text.
pub uninterp spec fn path_from_text(text: Seq<char>) -> PathBuf;

/// The text that `Path::to_str` gives of a path: present when the path is
/// valid Unicode.
pub uninterp spec fn path_text(p: PathBuf) -> Option<Seq<char>>;

/// Convert a string to a path buffer. Calls `PathBuf::from`, whose result
/// depends on the text alone. `PathBuf::from` on a `&str` stores exactly the
/// string's text as the path (the bytes of the `str`, as an `OsString`), so
/// `to_str` on the result gives that text back; the contract claims both.
#[verifier::external_body]
pub fn string_to_path(s: &str) -> (p: PathBuf)
    ensures
        p == path_from_text(s@),
        path_text(p) == Some(s@),
{
    PathBuf::from(s)
}


/// Get the default QwenCode executable path: the first of `qwen` and
/// `qwen-code` that `is_on_path` reports as an executable on the search path.
pub fn get_default_qwen_path<F: Fn(&str) -> bool>(is_on_path: F) -> (p: Option<PathBuf>)
    requires
        call_requires(is_on_path, ("qwen",)),
        call_requires(is_on_path, ("qwen-code",)),
    ensures
        p matches Some(x) ==> (x == path_from_text("qwen"@) && call_ensures(is_on_path, ("qwen",), true))
            || (x == path_from_text("qwen-code"@) && call_ensures(is_on_path, ("qwen",), false)
                && call_ensures(is_on_path, ("qwen-code",), true)),
        p is None ==> call_ensures(is_on_path, ("qwen",), false) && call_ensures(is_on_path, ("qwen-code",), false),
{
    if is_on_path("qwen") {
        return Some(string_to_path("qwen"));
    }
    if is_on_path("qwen-code") {
        return Some(string_to_path("qwen-code"));
    }
    None
}

/// The character of a decimal digit.
pub open spec fn digit_char(d: nat) -> char {
    if d == 0 { '0' } else if d == 1 { '1' } else if d == 2 { '2' } else if d == 3 { '3' }
    else if d == 4 { '4' } else if d == 5 { '5' } else if d == 6 { '6' } else if d == 7 { '7' }
    else if d == 8 { '8' } else { '9' }
}

/// The decimal digits of `n`, most significant first, without leading zeros.
pub open spec fn decimal(n: nat) -> Seq<char>
    decreases n,
{
    if n < 10 {
        seq![digit_char(n)]
    } else {
        decimal(n / 10).push(digit_char(n % 10))
    }
}

/// `n / d` rounded to the nearest integer, ties to the even one.
pub open spec fn round_half_even(n: nat, d: nat) -> nat
    recommends
        d > 0,
{
    let q = n / d;
    let r = n % d;
    if 2 * r > d {
        q + 1
    } else if 2 * r < d {
        q
    } else {
        q + q % 2
    }
}

/// For `1000 <= ms < 64000`: the `e` with `2^e <= ms / 1000 < 2^(e + 1)`.
pub open spec fn binade(ms: nat) -> nat {
    if ms < 2000 { 0 } else if ms < 4000 { 1 } else if ms < 8000 { 2 }
    else if ms < 16000 { 3 } else if ms < 32000 { 4 } else { 5 }
}

/// The number of tenths that `{:.1}` shows for the seconds in `ms`, computed
/// the way a 64-bit float does: `ms / 1000` is first rounded to the nearest
/// double, `M / 2^(52 - e)` with `M` the 53-bit significand, and that double is
/// then printed rounded to one decimal, ties to even.
pub open spec fn shown_tenths(ms: nat) -> nat {
    let scale = pow2((52 - binade(ms)) as nat);
    let significand = round_half_even(ms * scale, 1000);
    round_half_even(10 * significand, scale)
}

/// The text of a duration: `<ms>ms` under a second, `<s>.<tenth>s` under a
/// minute, and `<m>m <s>s` from a minute on.
pub open spec fn duration_text(ms: nat) -> Seq<char> {
    if ms < 1000 {
        decimal(ms) + seq!['m', 's']
    } else if ms < 60000 {
        decimal(shown_tenths(ms) / 10) + seq!['.'] + decimal(shown_tenths(ms) % 10) + seq!['s']
    } else {
        decimal(ms / 60000) + seq!['m', ' '] + decimal((ms % 60000) / 1000) + seq!['s']
    }
}

fn digit(d: u64) -> (c: char)
    requires
        d < 10,
    ensures
        c == digit_char(d as nat),
{
    match d {
        0 => '0',
        1 => '1',
        2 => '2',
        3 => '3',
        4 => '4',
        5 => '5',
        6 => '6',
        7 => '7',
        8 => '8',
        _ => '9',
    }
}

/// Appends the decimal digits of `n`.
fn push_decimal(out: &mut String, n: u64)
    ensures
        final(out)@ == old(out)@ + decimal(n as nat),
    decreases n,
{
    if n >= 10 {
        push_decimal(out, n / 10);
    }
    push_char(out, digit(n % 10));
    proof {
        assert(decimal(n as nat) == if n < 10 { seq![digit_char(n as nat)] } else { decimal((n / 10) as nat).push(digit_char((n % 10) as nat)) });
    }
}

proof fn lemma_round_half_even_at_most_one_over(n: nat, d: nat)
    requires
        d > 0,
    ensures
        round_half_even(n, d) <= n / d + 1,
{
}

fn round_half_even_u128(n: u128, d: u128) -> (r: u128)
    requires
        d > 0,
        n < 0x1_0000_0000_0000_0000_0000,
    ensures
        r == round_half_even(n as nat, d as nat),
{
    let q = n / d;
    let r = n % d;
    if r > d - r {
        q + 1
    } else if r < d - r {
        q
    } else {
        q + q % 2
    }
}

/// The tenths shown for a duration of at least one second and under a minute.
fn tenths_of_seconds(ms: u64) -> (t: u64)
    requires
        1000 <= ms < 60000,
    ensures
        t == shown_tenths(ms as nat),
{
    proof {
        lemma2_to64();
        lemma2_to64_rest();
    }
    let scale: u128 = if ms < 2000 {
        4503599627370496
    } else if ms < 4000 {
        2251799813685248
    } else if ms < 8000 {
        1125899906842624
    } else if ms < 16000 {
        562949953421312
    } else if ms < 32000 {
        281474976710656
    } else {
        140737488355328
    };
    assert(scale == pow2((52 - binade(ms as nat)) as nat));
    let m = ms as u128;
    assert(m * scale <= 60000 * 4503599627370496) by (nonlinear_arith)
        requires
            m < 60000,
            scale <= 4503599627370496,
    ;
    let significand = round_half_even_u128(m * scale, 1000);
    proof {
        lemma_round_half_even_at_most_one_over((m * scale) as nat, 1000);
        assert((m * scale) as nat / 1000 <= 270215977642229760) by (nonlinear_arith)
            requires
                m * scale <= 60000 * 4503599627370496,
        ;
    }
    assert(significand <= 270215977642229761);
    let tenths = round_half_even_u128(10 * significand, scale);
    proof {
        lemma_round_half_even_at_most_one_over((10 * significand) as nat, scale as nat);
        assert((10 * significand) as nat / (scale as nat) <= 10 * significand) by (nonlinear_arith)
            requires
                scale >= 1,
        ;
    }
    assert(tenths <= 2702159776422297611);
    tenths as u64
}

/// Format a duration in milliseconds to a human-readable string.
pub fn format_duration_ms(ms: u64) -> (text: String)
    ensures
        text@ == duration_text(ms as nat),
{
    let mut out = String::new();
    if ms < 1000 {
        push_decimal(&mut out, ms);
        push_char(&mut out, 'm');
        push_char(&mut out, 's');
    } else if ms < 60000 {
        let tenths = tenths_of_seconds(ms);
        push_decimal(&mut out, tenths / 10);
        push_char(&mut out, '.');
        push_decimal(&mut out, tenths % 10);
        push_char(&mut out, 's');
    } else {
        push_decimal(&mut out, ms / 60000);
        push_char(&mut out, 'm');
        push_char(&mut out, ' ');
        push_decimal(&mut out, (ms % 60000) / 1000);
        push_char(&mut out, 's');
    }
    proof {
        assert(out@ =~= duration_text(ms as nat));
    }
    out
}

} // verus!
