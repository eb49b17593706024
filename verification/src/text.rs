//! Plain-text renderings that messages are built from: decimal numbers, identifiers in their
//! hyphenated form and `Debug`-quoted strings.
use vstd::prelude::*;

verus! {

/// The ASCII character of a decimal digit `0..=9`.
pub open spec fn decimal_digit(d: int) -> char {
    (48 + d) as char
}

/// The decimal rendering of `n`: its digits, most significant first, without leading zeros.
pub open spec fn decimal(n: nat) -> Seq<char>
    decreases n,
{
    if n < 10 {
        seq![decimal_digit(n as int)]
    } else {
        decimal(n / 10) + seq![decimal_digit((n % 10) as int)]
    }
}

/// The lower-case ASCII character of a hexadecimal digit `0..=15`.
pub open spec fn hex_digit(d: int) -> char {
    if d < 10 {
        (48 + d) as char
    } else {
        (87 + d) as char
    }
}

/// The `i`-th hexadecimal digit of `value`, counting from the most significant of its 32.
pub open spec fn nibble(value: u128, i: int) -> int {
    ((value >> ((124 - 4 * i) as u128)) & 0xf) as int
}

/// How many hyphens stand before position `j` of a hyphenated identifier.
pub open spec fn hyphens_before(j: int) -> int {
    if j < 8 {
        0
    } else if j < 13 {
        1
    } else if j < 18 {
        2
    } else if j < 23 {
        3
    } else {
        4
    }
}

/// The hyphenated lower-case form of a 128-bit identifier read as big-endian bytes:
/// 32 hexadecimal digits in groups of 8-4-4-4-12 separated by `-`.
pub open spec fn hyphenated(value: u128) -> Seq<char> {
    Seq::new(
        36,
        |j: int|
            if j == 8 || j == 13 || j == 18 || j == 23 {
                '-'
            } else {
                hex_digit(nibble(value, j - hyphens_before(j)))
            },
    )
}

/// What `format!("{:?}", text)` produces for a string slice: the text in double quotes with
/// quotes, backslashes and control characters escaped.
pub uninterp spec fn debug_quoted(text: Seq<char>) -> Seq<char>;

/// Renders `n` in decimal.
///
/// Calls `usize::to_string` (std's `Display` for `usize`), which the standard library
/// documents as the decimal digits of the value with no sign, padding or leading zeros.
#[verifier::external_body]
pub fn usize_text(n: usize) -> (text: String)
    ensures
        text@ == decimal(n as nat),
{
    n.to_string()
}

/// Renders `text` as `{:?}` does.
///
/// Calls std's `Debug` for `str` through `format!`. The contract only names the result
/// ([`debug_quoted`]); the escaping rules are not restated.
#[verifier::external_body]
pub fn debug_text(text: &str) -> (quoted: String)
    ensures
        quoted@ == debug_quoted(text@),
{
    format!("{:?}", text)
}

/// Renders an identifier in its hyphenated lower-case form.
///
/// Calls `uuid::Uuid::from_u128` and the `Display` of `uuid::Uuid`, which the uuid crate
/// writes as the hyphenated lower-case hexadecimal form of the big-endian bytes.
#[verifier::external_body]
pub fn uuid_text(value: u128) -> (text: String)
    ensures
        text@ == hyphenated(value),
{
    uuid::Uuid::from_u128(value).to_string()
}

} // verus!
