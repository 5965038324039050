//! Identifier casing and decimal numerals.

use vstd::prelude::*;

verus! {

/// What `inflections::case::to_snake_case` returns for a string.
pub uninterp spec fn snake_of(s: Seq<char>) -> Seq<char>;

/// What `inflections::case::to_pascal_case` returns for a string.
pub uninterp spec fn pascal_of(s: Seq<char>) -> Seq<char>;

/// A character that is left alone by lower word-separated casing.
pub open spec fn is_lower_word_char(c: char) -> bool {
    ('a' <= c && c <= 'z') || ('0' <= c && c <= '9') || c == '_'
}

/// An ASCII letter, digit, or one of the word separators ` `, `-`, `_`.
pub open spec fn is_ascii_word_char(c: char) -> bool {
    ('a' <= c && c <= 'z') || ('A' <= c && c <= 'Z') || ('0' <= c && c <= '9') || c == ' '
        || c == '-' || c == '_'
}

/// A name already in lower word-separated form: ASCII lowercase letters,
/// digits and underscores only.
pub open spec fn is_lower_separated(s: Seq<char>) -> bool {
    forall|i: int| 0 <= i < s.len() ==> is_lower_word_char(#[trigger] s[i])
}

/// A name made of ASCII letters, digits and word separators.
pub open spec fn is_ascii_words(s: Seq<char>) -> bool {
    forall|i: int| 0 <= i < s.len() ==> is_ascii_word_char(#[trigger] s[i])
}

/// Relies on `inflections::case::to_snake_case`, which maps each separator
/// (` `, `-`, `_`) to `_`, puts `_` between a lowercase and a following
/// uppercase character, and lowercases every character. So an ASCII word name
/// comes out lower word-separated, such a name comes out unchanged, and
/// converting the result once more gives the result.
#[verifier::external_body]
fn snake_case(s: &str) -> (r: String)
    ensures
        r@ == snake_of(s@),
        is_lower_separated(s@) ==> r@ == s@,
        is_ascii_words(s@) ==> is_lower_separated(r@),
        is_ascii_words(s@) ==> snake_of(r@) == r@,
{
    inflections::case::to_snake_case(s)
}

/// Relies on `inflections::case::to_pascal_case` for the capitalised compound
/// form of a name.
#[verifier::external_body]
fn pascal_case(s: &str) -> (r: String)
    ensures
        r@ == pascal_of(s@),
{
    inflections::case::to_pascal_case(s)
}

/// The method identifier for a message variant: its name in lower
/// word-separated form. Applying it again to its own result changes nothing.
pub fn method_ident(variant_name: &str) -> (r: String)
    ensures
        r@ == snake_of(variant_name@),
        is_ascii_words(variant_name@) ==> is_lower_separated(r@),
        is_ascii_words(variant_name@) ==> snake_of(r@) == r@,
        is_lower_separated(variant_name@) ==> r@ == variant_name@,
{
    snake_case(variant_name)
}

/// The interface name derived from a base name: its capitalised compound
/// form followed by `Robot`.
pub fn interface_name(base_name: &str) -> (r: String)
    ensures
        r@ == pascal_of(base_name@) + "Robot"@,
{
    let mut r = pascal_case(base_name);
    r.append("Robot");
    r
}

/// The text of one decimal digit.
pub open spec fn digit_text(d: nat) -> Seq<char> {
    if d == 0 {
        "0"@
    } else if d == 1 {
        "1"@
    } else if d == 2 {
        "2"@
    } else if d == 3 {
        "3"@
    } else if d == 4 {
        "4"@
    } else if d == 5 {
        "5"@
    } else if d == 6 {
        "6"@
    } else if d == 7 {
        "7"@
    } else if d == 8 {
        "8"@
    } else {
        "9"@
    }
}

/// The decimal numeral of `n`, without leading zeros.
pub open spec fn decimal_text(n: nat) -> Seq<char>
    decreases n,
{
    if n < 10 {
        digit_text(n)
    } else {
        decimal_text(n / 10) + digit_text(n % 10)
    }
}

fn digit_str(d: usize) -> (r: &'static str)
    requires
        d < 10,
    ensures
        r@ == digit_text(d as nat),
{
    match d {
        0 => "0",
        1 => "1",
        2 => "2",
        3 => "3",
        4 => "4",
        5 => "5",
        6 => "6",
        7 => "7",
        8 => "8",
        _ => "9",
    }
}

/// Appends the decimal numeral of `n` to `s`.
pub fn push_decimal(s: &mut String, n: usize)
    ensures
        final(s)@ == old(s)@ + decimal_text(n as nat),
    decreases n,
{
    if n >= 10 {
        push_decimal(s, n / 10);
        s.append(digit_str(n % 10));
    } else {
        s.append(digit_str(n));
    }
}

} // verus!
