//! Identifiers: 128-bit numbers drawn at random, written in the hyphenated
//! hexadecimal form of a UUID.

use vstd::arithmetic::power::pow;
use vstd::prelude::*;

verus! {

/// The lower-case hexadecimal digit for `n`, which lies in `0..16`.
pub open spec fn hex_digit(n: int) -> char {
    if n < 10 {
        ((48 + n) as u8) as char
    } else {
        ((87 + n) as u8) as char
    }
}

/// The `k`-th hexadecimal digit of `id`, counted from the most significant,
/// for `k` in `0..32`.
pub open spec fn nibble(id: u128, k: int) -> int {
    (id as int / pow(16, (31 - k) as nat)) % 16
}

/// How many hyphens stand before position `i` of the hyphenated form.
pub open spec fn hyphens_before(i: int) -> int {
    if i < 8 {
        0
    } else if i < 13 {
        1
    } else if i < 18 {
        2
    } else if i < 23 {
        3
    } else {
        4
    }
}

/// The hyphenated form of `id`: 32 lower-case hexadecimal digits in groups of
/// 8, 4, 4, 4 and 12, most significant first, with a hyphen between groups.
pub open spec fn hyphenated(id: u128) -> Seq<char> {
    Seq::new(
        36,
        |i: int|
            if i == 8 || i == 13 || i == 18 || i == 23 {
                '-'
            } else {
                hex_digit(nibble(id, i - hyphens_before(i)))
            },
    )
}

/// Whether `c` may occur in the hyphenated form of an identifier.
pub open spec fn is_id_char(c: char) -> bool {
    c == '-' || '0' <= c <= '9' || 'a' <= c <= 'f'
}

/// Whether `id` carries the marks of a randomly drawn identifier: version 4 in
/// its thirteenth digit, and the two highest bits of its seventeenth digit set
/// to one and zero.
pub open spec fn is_random_id(id: u128) -> bool {
    nibble(id, 12) == 4 && nibble(id, 16) / 4 == 2
}

/// The hyphenated form holds nothing but hexadecimal digits and hyphens.
pub proof fn lemma_hyphenated_chars(id: u128)
    ensures
        hyphenated(id).len() == 36,
        forall|i: int| 0 <= i < 36 ==> is_id_char(#[trigger] hyphenated(id)[i]),
{
    assert forall|i: int| 0 <= i < 36 implies is_id_char(#[trigger] hyphenated(id)[i]) by {
        let k = i - hyphens_before(i);
        let n = nibble(id, k);
        assert(0 <= n < 16);
        if !(i == 8 || i == 13 || i == 18 || i == 23) {
            assert(hyphenated(id)[i] == hex_digit(n));
            lemma_hex_digit(n);
        }
    }
}

/// Each of the sixteen digits is a character in `0..=9` or `a..=f`.
pub proof fn lemma_hex_digit(n: int)
    requires
        0 <= n < 16,
    ensures
        is_id_char(hex_digit(n)),
        hex_digit(n) != '-',
{
    if n < 10 {
        assert(((48 + n) as u8) as char as u32 == 48 + n);
    } else {
        assert(((87 + n) as u8) as char as u32 == 87 + n);
    }
}

/// Calls `uuid::Uuid::new_v4` and takes the number it stands for with
/// `Uuid::as_u128`. Trusted: every identifier so drawn carries version 4 and
/// the RFC variant; apart from these six bits it is random, and nothing is
/// claimed of it.
#[verifier::external_body]
pub(crate) fn fresh_id() -> (id: u128)
    ensures
        is_random_id(id),
{
    uuid::Uuid::new_v4().as_u128()
}

/// Makes a `uuid::Uuid` of `id` with `Uuid::from_u128` and formats it as
/// `Uuid` displays itself. Trusted: the text is the hyphenated lower-case
/// form.
#[verifier::external_body]
pub(crate) fn id_text(id: u128) -> (text: String)
    ensures
        text@ == hyphenated(id),
{
    uuid::Uuid::from_u128(id).to_string()
}

} // verus!
