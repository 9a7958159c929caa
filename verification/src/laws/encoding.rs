//! Laws of percent-encoding and base64.

use vstd::prelude::*;
use vstd::utf8::{encode_scalar, encode_utf8};

use crate::encoding::{
    base64_decoded, base64_round_trip, base64_text, base64url_decode, encode_part_segment,
    percent_decoded, percent_encoded, sextets_decoded, symbol, url_encode, url_decode, Symbol,
};

verus! {

/// The bytes of two texts, one behind the other, are the bytes of the two.
pub(crate) proof fn bytes_follow_each_other(a: Seq<char>, b: Seq<char>)
    ensures
        encode_utf8(a + b) == encode_utf8(a) + encode_utf8(b),
    decreases a.len(),
{
    if a.len() > 0 {
        bytes_follow_each_other(a.drop_first(), b);
        assert((a + b).drop_first() =~= a.drop_first() + b);
        assert(encode_utf8(a) + encode_utf8(b) =~= encode_scalar(a[0] as u32) + (encode_utf8(
            a.drop_first(),
        ) + encode_utf8(b)));
    } else {
        assert(a + b =~= b);
        assert(encode_utf8(a) + encode_utf8(b) =~= encode_utf8(b));
    }
}

proof fn escapes_follow_each_other(a: Seq<u8>, b: Seq<u8>)
    ensures
        percent_encoded(a + b) == percent_encoded(a) + percent_encoded(b),
    decreases a.len(),
{
    if a.len() > 0 {
        escapes_follow_each_other(a.drop_first(), b);
        assert((a + b).drop_first() =~= a.drop_first() + b);
        let head = crate::encoding::percent_byte(a[0]);
        assert(head + (percent_encoded(a.drop_first()) + percent_encoded(b)) =~= (head
            + percent_encoded(a.drop_first())) + percent_encoded(b));
    } else {
        assert(a + b =~= b);
        assert(Seq::<char>::empty() + percent_encoded(b) =~= percent_encoded(b));
    }
}

/// A letter, a digit, or one of `-`, `_`, `.` and `~`.
pub open spec fn stands_for_itself(c: char) -> bool {
    ||| 'A' <= c <= 'Z'
    ||| 'a' <= c <= 'z'
    ||| '0' <= c <= '9'
    ||| c == '-'
    ||| c == '_'
    ||| c == '.'
    ||| c == '~'
}

/// The value of an upper-case hexadecimal digit; negative for any other character.
pub open spec fn upper_hex(c: char) -> int {
    if '0' <= c <= '9' {
        c as int - '0' as int
    } else if 'A' <= c <= 'F' {
        c as int - 'A' as int + 10
    } else {
        -100
    }
}

/// At a place of a text stand `%` and the two hexadecimal digits of a byte.
pub open spec fn escapes_at(s: Seq<char>, at: int, b: u8) -> bool {
    &&& s[at] == '%'
    &&& 0 <= upper_hex(s[at + 1])
    &&& 0 <= upper_hex(s[at + 2])
    &&& b == 16 * upper_hex(s[at + 1]) + upper_hex(s[at + 2])
}

proof fn other_bytes_are_escaped(bytes: Seq<u8>)
    requires
        forall|k: int| 0 <= k < bytes.len() ==> #[trigger] bytes[k] >= 0x80,
    ensures
        percent_encoded(bytes).len() == 3 * bytes.len(),
        forall|k: int|
            0 <= k < bytes.len() ==> escapes_at(percent_encoded(bytes), 3 * k, #[trigger] bytes[k]),
    decreases bytes.len(),
{
    if bytes.len() > 0 {
        let rest = bytes.drop_first();
        assert forall|k: int| 0 <= k < rest.len() implies #[trigger] rest[k] >= 0x80 by {
            assert(rest[k] == bytes[k + 1]);
        }
        other_bytes_are_escaped(rest);
        let out = percent_encoded(bytes);
        let tail = percent_encoded(rest);
        assert(bytes[0] >= 0x80);
        assert forall|k: int| 0 <= k < bytes.len() implies escapes_at(
            out,
            3 * k,
            #[trigger] bytes[k],
        ) by {
            if k > 0 {
                assert(rest[k - 1] == bytes[k]);
                assert(escapes_at(tail, 3 * (k - 1), rest[k - 1]));
                assert(out[3 * k] == tail[3 * (k - 1)]);
                assert(out[3 * k + 1] == tail[3 * (k - 1) + 1]);
                assert(out[3 * k + 2] == tail[3 * (k - 1) + 2]);
            }
        }
    }
}

proof fn a_wide_character_has_high_bytes(c: char)
    requires
        c as u32 >= 0x80,
    ensures
        forall|k: int|
            0 <= k < encode_scalar(c as u32).len() ==> #[trigger] encode_scalar(c as u32)[k]
                >= 0x80,
{
    let s = c as u32;
    assert((0xC0u8 | ((s >> 6) & 0x1F) as u8) >= 0x80) by (bit_vector);
    assert((0xE0u8 | ((s >> 12) & 0x0F) as u8) >= 0x80) by (bit_vector);
    assert((0xF0u8 | ((s >> 18) & 0x07) as u8) >= 0x80) by (bit_vector);
    assert((0x80u8 | (s & 0x3F) as u8) >= 0x80) by (bit_vector);
    assert((0x80u8 | ((s >> 6) & 0x3F) as u8) >= 0x80) by (bit_vector);
    assert((0x80u8 | ((s >> 12) & 0x3F) as u8) >= 0x80) by (bit_vector);
}

/// A text is encoded from its start to its end, character by character. A letter, a digit
/// and `-_.~` stand for themselves. Of any other character each byte is written as `%` and
/// two upper-case hexadecimal digits. A part id is encoded like any other text.
pub proof fn each_character_is_encoded_by_itself(
    head: &str,
    c: char,
    text: &str,
    start: String,
    r: String,
    segment: String,
)
    requires
        text@ == head@.push(c),
        call_ensures(url_encode, (head,), start),
        call_ensures(url_encode, (text,), r),
        call_ensures(encode_part_segment, (text,), segment),
    ensures
        head@.len() == 0 ==> start@.len() == 0,
        segment@ == r@,
        r@.take(start@.len() as int) == start@,
        stands_for_itself(c) ==> r@ == start@.push(c),
        !stands_for_itself(c) && (c as u32) < 0x80 ==> r@.len() == start@.len() + 3 && escapes_at(
            r@,
            start@.len() as int,
            c as u8,
        ),
        c as u32 >= 0x80 ==> r@.len() == start@.len() + 3 * encode_utf8(seq![c]).len() && forall|
            k: int,
        |
            0 <= k < encode_utf8(seq![c]).len() ==> escapes_at(
                r@,
                start@.len() + 3 * k,
                #[trigger] encode_utf8(seq![c])[k],
            ),
{
    let one = encode_utf8(seq![c]);
    assert(text@ =~= head@ + seq![c]);
    bytes_follow_each_other(head@, seq![c]);
    escapes_follow_each_other(encode_utf8(head@), one);
    assert(seq![c].drop_first() =~= Seq::<char>::empty());
    reveal_with_fuel(encode_utf8, 2);
    assert(one =~= encode_scalar(c as u32));
    let tail = percent_encoded(one);
    assert(r@ == start@ + tail);
    assert(r@.take(start@.len() as int) =~= start@);
    if (c as u32) < 0x80 {
        vstd::utf8::is_ascii_chars_encode_utf8(seq![c]);
        assert(one =~= seq![c as u8]);
        assert(one.drop_first() =~= Seq::<u8>::empty());
        reveal_with_fuel(percent_encoded, 2);
        assert(tail =~= crate::encoding::percent_byte(c as u8));
        if stands_for_itself(c) {
            assert(r@ =~= start@.push(c));
        }
    } else {
        a_wide_character_has_high_bytes(c);
        other_bytes_are_escaped(one);
        assert forall|k: int| 0 <= k < one.len() implies escapes_at(
            r@,
            start@.len() + 3 * k,
            #[trigger] one[k],
        ) by {
            assert(escapes_at(tail, 3 * k, one[k]));
            assert(r@[start@.len() + 3 * k] == tail[3 * k]);
            assert(r@[start@.len() + 3 * k + 1] == tail[3 * k + 1]);
            assert(r@[start@.len() + 3 * k + 2] == tail[3 * k + 2]);
        }
    }
}

/// Two bytes after a `%` that stand for a byte: two hexadecimal digits of either case, or
/// a plus sign and one of them.
pub open spec fn any_hex(b: u8) -> int {
    if '0' as u8 <= b <= '9' as u8 {
        b - '0' as int
    } else if 'A' as u8 <= b <= 'F' as u8 {
        b - 'A' as int + 10
    } else if 'a' as u8 <= b <= 'f' as u8 {
        b - 'a' as int + 10
    } else {
        -100
    }
}

/// The byte that an escape stands for; negative where there is none.
pub open spec fn escaped_byte(a: u8, b: u8) -> int {
    if any_hex(b) < 0 {
        -1
    } else if a == '+' as u8 {
        any_hex(b)
    } else if any_hex(a) < 0 {
        -1
    } else {
        16 * any_hex(a) + any_hex(b)
    }
}

proof fn decoding_walks_on(h: Seq<u8>, t: Seq<u8>)
    requires
        !h.contains(0x25),
    ensures
        percent_decoded(h + t) == percent_decoded(h) + percent_decoded(t),
    decreases h.len(),
{
    if h.len() > 0 {
        assert(h.contains(h[0]));
        let rest = h.drop_first();
        assert(!rest.contains(0x25)) by {
            if rest.contains(0x25) {
                let i = choose|i: int| 0 <= i < rest.len() && rest[i] == 0x25;
                assert(h[i + 1] == 0x25);
            }
        }
        decoding_walks_on(rest, t);
        assert((h + t).drop_first() =~= rest + t);
        let one = if h[0] == 0x2b {
            seq![0x20u8]
        } else {
            seq![h[0]]
        };
        assert(one + (percent_decoded(rest) + percent_decoded(t)) =~= (one + percent_decoded(rest))
            + percent_decoded(t));
    } else {
        assert(h + t =~= t);
        assert(Seq::<u8>::empty() + percent_decoded(t) =~= percent_decoded(t));
    }
}

proof fn decoding_one(b: u8, t: Seq<u8>)
    requires
        b != 0x25,
    ensures
        percent_decoded(seq![b] + t) == (if b == 0x2b {
            seq![0x20u8]
        } else {
            seq![b]
        }) + percent_decoded(t),
{
    assert((seq![b] + t).drop_first() =~= t);
}

/// A plus sign is read as a space.
pub proof fn a_plus_is_read_as_a_space(
    text: &str,
    other: &str,
    h: Seq<u8>,
    t: Seq<u8>,
    r: String,
    same: String,
)
    requires
        !h.contains('%' as u8),
        encode_utf8(text@) == h + (seq!['+' as u8] + t),
        encode_utf8(other@) == h + (seq![' ' as u8] + t),
        call_ensures(url_decode, (text,), r),
        call_ensures(url_decode, (other,), same),
    ensures
        r@ == same@,
{
    decoding_walks_on(h, seq!['+' as u8] + t);
    decoding_walks_on(h, seq![' ' as u8] + t);
    decoding_one('+' as u8, t);
    decoding_one(' ' as u8, t);
}

/// An escape is read as the byte that it stands for.
pub proof fn an_escape_is_read_as_its_byte(
    text: &str,
    other: &str,
    h: Seq<u8>,
    a: u8,
    b: u8,
    v: u8,
    t: Seq<u8>,
    r: String,
    same: String,
)
    requires
        !h.contains('%' as u8),
        v == escaped_byte(a, b),
        v != '%' as u8 && v != '+' as u8,
        encode_utf8(text@) == h + (seq!['%' as u8, a, b] + t),
        encode_utf8(other@) == h + (seq![v] + t),
        call_ensures(url_decode, (text,), r),
        call_ensures(url_decode, (other,), same),
    ensures
        r@ == same@,
{
    let whole = seq!['%' as u8, a, b] + t;
    decoding_walks_on(h, whole);
    decoding_walks_on(h, seq![v] + t);
    decoding_one(v, t);
    assert(whole.skip(3) =~= t);
    assert(crate::encoding::hex_pair(whole[1], whole[2]) == Some(v));
}

proof fn plain_bytes_stay(bytes: Seq<u8>)
    requires
        !bytes.contains(0x2b),
        forall|i: int|
            0 <= i < bytes.len() - 2 && #[trigger] bytes[i] == 0x25 ==> escaped_byte(
                bytes[i + 1],
                bytes[i + 2],
            ) < 0,
    ensures
        percent_decoded(bytes) == bytes,
    decreases bytes.len(),
{
    if bytes.len() > 0 {
        let rest = bytes.drop_first();
        assert(!rest.contains(0x2b)) by {
            if rest.contains(0x2b) {
                let i = choose|i: int| 0 <= i < rest.len() && rest[i] == 0x2b;
                assert(bytes[i + 1] == 0x2b);
            }
        }
        assert forall|i: int| 0 <= i < rest.len() - 2 && #[trigger] rest[i] == 0x25 implies
            escaped_byte(rest[i + 1], rest[i + 2]) < 0 by {
            assert(bytes[i + 1] == rest[i]);
        }
        plain_bytes_stay(rest);
        assert(bytes.contains(bytes[0]));
        assert(seq![bytes[0]] + rest =~= bytes);
        if bytes[0] == 0x25 && bytes.len() > 2 {
            assert(escaped_byte(bytes[1], bytes[2]) < 0);
        }
    }
}

/// What holds no plus sign and no whole escape is read as it is.
pub proof fn plain_text_is_read_as_it_is(text: &str, r: String)
    requires
        !encode_utf8(text@).contains('+' as u8),
        forall|i: int|
            0 <= i < encode_utf8(text@).len() - 2 && #[trigger] encode_utf8(text@)[i] == '%' as u8
                ==> escaped_byte(encode_utf8(text@)[i + 1], encode_utf8(text@)[i + 2]) < 0,
        call_ensures(url_decode, (text,), r),
    ensures
        r@ == text@,
{
    plain_bytes_stay(encode_utf8(text@));
    vstd::utf8::encode_utf8_valid_utf8(text@);
    vstd::utf8::encode_utf8_decode_utf8(text@);
}

/// Decoding undoes encoding, for every text.
pub proof fn an_encoded_text_is_read_back(text: &str, written: String, code: &str, r: String)
    requires
        call_ensures(url_encode, (text,), written),
        code@ == written@,
        call_ensures(url_decode, (code,), r),
    ensures
        r@ == text@,
{
    crate::encoding::url_coding_round_trip(text@);
}

/// A byte of base64 text of either alphabet, or its padding.
pub open spec fn in_base64(b: u8) -> bool {
    ||| 'A' as u8 <= b <= 'Z' as u8
    ||| 'a' as u8 <= b <= 'z' as u8
    ||| '0' as u8 <= b <= '9' as u8
    ||| b == '+' as u8
    ||| b == '-' as u8
    ||| b == '/' as u8
    ||| b == '_' as u8
    ||| b == '=' as u8
}

proof fn only_foreign_bytes_spoil(text: Seq<u8>, acc: int, bits: int)
    ensures
        sextets_decoded(text, acc, bits) is Some == (forall|i: int|
            0 <= i < text.len() ==> in_base64(#[trigger] text[i])),
    decreases text.len(),
{
    if text.len() > 0 {
        let rest = text.drop_first();
        assert((forall|i: int| 0 <= i < text.len() ==> in_base64(#[trigger] text[i])) == (in_base64(
            text[0],
        ) && forall|i: int| 0 <= i < rest.len() ==> in_base64(#[trigger] rest[i]))) by {
            if forall|i: int| 0 <= i < text.len() ==> in_base64(#[trigger] text[i]) {
                assert forall|i: int| 0 <= i < rest.len() implies in_base64(#[trigger] rest[i]) by {
                    assert(rest[i] == text[i + 1]);
                }
            }
            if in_base64(text[0]) && forall|i: int|
                0 <= i < rest.len() ==> in_base64(#[trigger] rest[i]) {
                assert forall|i: int| 0 <= i < text.len() implies in_base64(#[trigger] text[i]) by {
                    if i > 0 {
                        assert(rest[i - 1] == text[i]);
                    }
                }
            }
        }
        match symbol(text[0]) {
            Symbol::Foreign => {},
            Symbol::Padding => {
                only_foreign_bytes_spoil(rest, acc, bits);
            },
            Symbol::Sextet(v) => {
                if bits < 2 {
                    only_foreign_bytes_spoil(rest, acc * 64 + v, bits + 6);
                } else {
                    let left = bits - 2;
                    only_foreign_bytes_spoil(
                        rest,
                        (acc * 64 + v) % crate::encoding::place(left),
                        left,
                    );
                }
            },
        }
    }
}

/// Base64 text of either alphabet can be read, padded or not; any other text cannot.
pub proof fn base64_of_either_alphabet_is_read(text: &str, r: Option<Vec<u8>>)
    requires
        call_ensures(base64url_decode, (text,), r),
    ensures
        r is Some == (forall|i: int|
            0 <= i < encode_utf8(text@).len() ==> in_base64(#[trigger] encode_utf8(text@)[i])),
{
    only_foreign_bytes_spoil(encode_utf8(text@), 0, 0);
}

/// Reading base64 gives the bytes that were written, in either alphabet, padded or not.
pub proof fn written_base64_is_read_back(
    bytes: Seq<u8>,
    url_safe: bool,
    pad: bool,
    text: &str,
    r: Option<Vec<u8>>,
)
    requires
        url_safe ==> text@ == base64_text(bytes, '-', '_', pad),
        !url_safe ==> text@ == base64_text(bytes, '+', '/', pad),
        call_ensures(base64url_decode, (text,), r),
    ensures
        r is Some && r->0@ == bytes,
{
    base64_round_trip(bytes, url_safe, pad);
    assert(base64_decoded(text@) == Some(bytes));
}

} // verus!
