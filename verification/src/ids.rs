//! Universally unique ids.

use vstd::arithmetic::div_mod::{lemma_mod_breakdown, lemma_small_mod};
use vstd::arithmetic::power::{
    lemma_pow0, lemma_pow1, lemma_pow_adds, lemma_pow_positive, pow,
};
use vstd::prelude::*;

verus! {

/// One lower-case hexadecimal digit.
pub open spec fn lower_hex(n: int) -> char {
    if n < 10 {
        (0x30 + n) as char
    } else {
        (0x57 + n) as char
    }
}

/// The hexadecimal digit of an id at a place, the most significant first.
pub open spec fn nibble(id: u128, place: int) -> int {
    (id as int / pow(16, (31 - place) as nat)) % 16
}

/// How many hyphens stand before a place in the text of an id.
pub open spec fn hyphens_before(i: int) -> int {
    if i < 8 {
        0
    } else if i < 13 {
        1
    } else if i < 18 {
        2
    } else if i < 23 {
        3
    } else {
        4
    }
}

/// The hyphenated text of an id: groups of 8, 4, 4, 4 and 12 lower-case digits.
pub open spec fn uuid_chars(id: u128) -> Seq<char> {
    Seq::new(
        36,
        |i: int|
            if i == 8 || i == 13 || i == 18 || i == 23 {
                '-'
            } else {
                lower_hex(nibble(id, i - hyphens_before(i)))
            },
    )
}

/// Calls `to_string` of the `uuid::Uuid` with the given number: its hyphenated
/// lower-case form.
#[verifier::external_body]
pub(crate) fn uuid_text(id: u128) -> (r: String)
    ensures
        r@ == uuid_chars(id),
{
    uuid::Uuid::from_u128(id).to_string()
}

/// The id says of itself that it is a random one: its version is 4, and its variant is
/// the one that versions are defined for.
pub open spec fn is_random_id(id: u128) -> bool {
    nibble(id, 12) == 4 && 8 <= nibble(id, 16) < 12
}

/// Calls `uuid::Uuid::new_v4`, a random id, and gives its number. The id carries its
/// version and its variant, so it is never the nil id.
#[verifier::external_body]
pub(crate) fn random_uuid() -> (r: u128)
    ensures
        is_random_id(r),
        r != 0,
{
    uuid::Uuid::new_v4().as_u128()
}

/// The text of an id holds digits, the letters a to f and hyphens only.
pub proof fn uuid_alphabet(id: u128)
    ensures
        uuid_chars(id).len() == 36,
        forall|i: int|
            0 <= i < 36 ==> {
                let c = #[trigger] uuid_chars(id)[i];
                c == '-' || '0' <= c <= '9' || 'a' <= c <= 'f'
            },
{
    assert forall|i: int| 0 <= i < 36 implies ({
        let c = #[trigger] uuid_chars(id)[i];
        c == '-' || '0' <= c <= '9' || 'a' <= c <= 'f'
    }) by {
        let n = nibble(id, i - hyphens_before(i));
        assert(0 <= n < 16);
    }
}

/// Where the digit of a place stands in the text of an id.
spec fn text_place(place: int) -> int {
    if place < 8 {
        place
    } else if place < 12 {
        place + 1
    } else if place < 16 {
        place + 2
    } else if place < 20 {
        place + 3
    } else {
        place + 4
    }
}

/// Ids with the same text have the same digits.
proof fn same_text_same_digits(a: u128, b: u128, place: int)
    requires
        uuid_chars(a) == uuid_chars(b),
        0 <= place < 32,
    ensures
        nibble(a, place) == nibble(b, place),
{
    let i = text_place(place);
    assert(i - hyphens_before(i) == place);
    assert(uuid_chars(a)[i] == lower_hex(nibble(a, place)));
    assert(uuid_chars(b)[i] == lower_hex(nibble(b, place)));
}

/// Ids with the same text agree on their last digits.
proof fn same_text_same_end(a: u128, b: u128, digits: nat)
    requires
        uuid_chars(a) == uuid_chars(b),
        digits <= 32,
    ensures
        a as int % pow(16, digits) == b as int % pow(16, digits),
    decreases digits,
{
    if digits == 0 {
        lemma_pow0(16);
    } else {
        let fewer = (digits - 1) as nat;
        same_text_same_end(a, b, fewer);
        same_text_same_digits(a, b, 31 - fewer);
        lemma_pow_positive(16, fewer);
        lemma_pow_adds(16, fewer, 1);
        lemma_pow1(16);
        lemma_mod_breakdown(a as int, pow(16, fewer), 16);
        lemma_mod_breakdown(b as int, pow(16, fewer), 16);
    }
}

/// Different ids have different texts.
pub proof fn uuid_texts_tell_ids_apart(a: u128, b: u128)
    requires
        uuid_chars(a) == uuid_chars(b),
    ensures
        a == b,
{
    same_text_same_end(a, b, 32);
    assert(pow(16, 32) == 0x1_0000_0000_0000_0000_0000_0000_0000_0000) by {
        reveal_with_fuel(pow, 33);
    }
    lemma_small_mod(a as nat, pow(16, 32) as nat);
    lemma_small_mod(b as nat, pow(16, 32) as nat);
}

} // verus!
