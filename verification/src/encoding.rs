//! Percent-encoding of URL parts, and base64.

use base64::Engine;
use vstd::prelude::*;
use vstd::utf8::{decode_utf8, encode_utf8, is_ascii_chars, valid_utf8};

verus! {

/// What `String::from_utf8_lossy` makes of bytes.
pub uninterp spec fn utf8_lossy(bytes: Seq<u8>) -> Seq<char>;

/// Calls `String::from_utf8_lossy`. The contract names the result, and states that
/// bytes which are valid UTF-8 give the text that they encode.
#[verifier::external_body]
pub(crate) fn lossy_text(bytes: &[u8]) -> (r: String)
    ensures
        r@ == utf8_lossy(bytes@),
        valid_utf8(bytes@) ==> r@ == decode_utf8(bytes@),
{
    String::from_utf8_lossy(bytes).into_owned()
}

// ---------------------------------------------------------------------------
// Percent-encoding
// ---------------------------------------------------------------------------

/// The bytes that stand for themselves in a URL component.
pub open spec fn unreserved(b: u8) -> bool {
    ||| 0x41 <= b <= 0x5a
    ||| 0x61 <= b <= 0x7a
    ||| 0x30 <= b <= 0x39
    ||| b == 0x2d
    ||| b == 0x5f
    ||| b == 0x2e
    ||| b == 0x7e
}

/// One upper-case hexadecimal digit.
pub open spec fn hex_digit(n: int) -> char {
    if n < 10 {
        (0x30 + n) as char
    } else {
        (0x37 + n) as char
    }
}

/// How one byte is written: as itself, or as `%` and two hexadecimal digits.
pub open spec fn percent_byte(b: u8) -> Seq<char> {
    if unreserved(b) {
        seq![b as char]
    } else {
        seq!['%', hex_digit(b as int / 16), hex_digit(b as int % 16)]
    }
}

/// How bytes are written in a URL component.
pub open spec fn percent_encoded(bytes: Seq<u8>) -> Seq<char>
    decreases bytes.len(),
{
    if bytes.len() == 0 {
        Seq::empty()
    } else {
        percent_byte(bytes[0]) + percent_encoded(bytes.drop_first())
    }
}

/// The value of a hexadecimal digit of either case.
pub open spec fn hex_value(b: u8) -> Option<int> {
    if 0x30 <= b <= 0x39 {
        Some(b - 0x30)
    } else if 0x41 <= b <= 0x46 {
        Some(b - 0x37)
    } else if 0x61 <= b <= 0x66 {
        Some(b - 0x57)
    } else {
        None
    }
}

/// The byte that two characters after a `%` stand for. A plus sign may take the
/// place of the first digit.
pub open spec fn hex_pair(a: u8, b: u8) -> Option<u8> {
    match hex_value(b) {
        Some(low) => match hex_value(a) {
            Some(high) => Some((high * 16 + low) as u8),
            None => if a == 0x2b {
                Some(low as u8)
            } else {
                None
            },
        },
        None => None,
    }
}

/// The bytes that a URL component stands for: an escape gives its byte, a plus sign
/// a space, and anything else itself.
pub open spec fn percent_decoded(bytes: Seq<u8>) -> Seq<u8>
    decreases bytes.len(),
{
    if bytes.len() == 0 {
        Seq::empty()
    } else if bytes[0] == 0x25 && bytes.len() > 2 && hex_pair(bytes[1], bytes[2]) is Some {
        seq![hex_pair(bytes[1], bytes[2])->0] + percent_decoded(bytes.skip(3))
    } else if bytes[0] == 0x2b {
        seq![0x20u8] + percent_decoded(bytes.drop_first())
    } else {
        seq![bytes[0]] + percent_decoded(bytes.drop_first())
    }
}

fn is_unreserved(b: u8) -> (r: bool)
    ensures
        r == unreserved(b),
{
    (0x41 <= b && b <= 0x5a) || (0x61 <= b && b <= 0x7a) || (0x30 <= b && b <= 0x39) || b == 0x2d
        || b == 0x5f || b == 0x2e || b == 0x7e
}

fn hex_char(n: u8) -> (r: char)
    requires
        n < 16,
    ensures
        r == hex_digit(n as int),
{
    if n < 10 {
        (0x30 + n) as char
    } else {
        (0x37 + n) as char
    }
}

/// Percent-encodes the UTF-8 bytes of a text.
fn percent_encode(input: &str) -> (r: String)
    ensures
        r@ == percent_encoded(encode_utf8(input@)),
{
    let bytes = input.as_bytes();
    let mut out = String::new();
    let mut i: usize = 0;
    assert(bytes@.skip(0) =~= bytes@);
    while i < bytes.len()
        invariant
            i <= bytes@.len(),
            out@ + percent_encoded(bytes@.skip(i as int)) == percent_encoded(bytes@),
        decreases bytes@.len() - i,
    {
        let byte = bytes[i];
        let ghost rest = bytes@.skip(i as int);
        let ghost before = out@;
        assert(rest.drop_first() =~= bytes@.skip(i + 1));
        if is_unreserved(byte) {
            out.push(byte as char);
        } else {
            out.push('%');
            out.push(hex_char(byte / 16));
            out.push(hex_char(byte % 16));
        }
        assert(out@ =~= before + percent_byte(byte));
        assert(before + (percent_byte(byte) + percent_encoded(bytes@.skip(i + 1))) =~= out@
            + percent_encoded(bytes@.skip(i + 1)));
        i = i + 1;
    }
    assert(bytes@.skip(i as int) =~= Seq::<u8>::empty());
    assert(out@ + Seq::<char>::empty() =~= out@);
    out
}

/// Percent-encodes a query value: everything but the unreserved characters.
pub fn url_encode(input: &str) -> (r: String)
    ensures
        r@ == percent_encoded(encode_utf8(input@)),
{
    percent_encode(input)
}

/// Percent-encodes one path segment of a part id. A part id may hold `#` and `:`,
/// and a raw `#` in a URL would cut the request at the fragment.
pub fn encode_part_segment(part_id: &str) -> (r: String)
    ensures
        r@ == percent_encoded(encode_utf8(part_id@)),
{
    percent_encode(part_id)
}

fn hex_digit_value(b: u8) -> (r: Option<u8>)
    ensures
        match r {
            Some(v) => hex_value(b) == Some(v as int) && v < 16,
            None => hex_value(b) is None,
        },
{
    if 0x30 <= b && b <= 0x39 {
        Some(b - 0x30)
    } else if 0x41 <= b && b <= 0x46 {
        Some(b - 0x37)
    } else if 0x61 <= b && b <= 0x66 {
        Some(b - 0x57)
    } else {
        None
    }
}

fn hex_pair_value(a: u8, b: u8) -> (r: Option<u8>)
    ensures
        r == hex_pair(a, b),
{
    match (hex_digit_value(a), hex_digit_value(b)) {
        (Some(high), Some(low)) => Some(high * 16 + low),
        (None, Some(low)) => if a == 0x2b {
            Some(low)
        } else {
            None
        },
        _ => None,
    }
}

/// Decodes a query value. An escape that is cut short or is not hexadecimal stays as
/// it is.
pub fn url_decode(input: &str) -> (r: String)
    ensures
        r@ == utf8_lossy(percent_decoded(encode_utf8(input@))),
        valid_utf8(percent_decoded(encode_utf8(input@))) ==> r@ == decode_utf8(
            percent_decoded(encode_utf8(input@)),
        ),
{
    let bytes = input.as_bytes();
    let mut out: Vec<u8> = Vec::new();
    let mut i: usize = 0;
    assert(bytes@.skip(0) =~= bytes@);
    assert(out@ + percent_decoded(bytes@) =~= percent_decoded(bytes@));
    while i < bytes.len()
        invariant
            i <= bytes@.len(),
            out@ + percent_decoded(bytes@.skip(i as int)) == percent_decoded(bytes@),
        decreases bytes@.len() - i,
    {
        let byte = bytes[i];
        let ghost rest = bytes@.skip(i as int);
        let ghost before = out@;
        assert(rest.drop_first() =~= bytes@.skip(i + 1));
        let mut escaped: Option<u8> = None;
        if byte == 0x25 && bytes.len() - i > 2 {
            escaped = hex_pair_value(bytes[i + 1], bytes[i + 2]);
        }
        match escaped {
            Some(value) => {
                assert(rest.skip(3) =~= bytes@.skip(i + 3));
                out.push(value);
                assert(before + (seq![value] + percent_decoded(bytes@.skip(i + 3))) =~= out@
                    + percent_decoded(bytes@.skip(i + 3)));
                i = i + 3;
            },
            None => {
                let value: u8 = if byte == 0x2b {
                    0x20
                } else {
                    byte
                };
                out.push(value);
                assert(before + (seq![value] + percent_decoded(bytes@.skip(i + 1))) =~= out@
                    + percent_decoded(bytes@.skip(i + 1)));
                i = i + 1;
            },
        }
    }
    assert(bytes@.skip(i as int) =~= Seq::<u8>::empty());
    assert(out@ + Seq::<u8>::empty() =~= out@);
    lossy_text(&out)
}

/// The characters of an ASCII text, each as one byte.
pub open spec fn ascii_bytes(s: Seq<char>) -> Seq<u8> {
    Seq::new(s.len(), |i: int| s[i] as u8)
}

/// What percent-encoding writes is made of unreserved characters, `%` and upper-case
/// hexadecimal digits: nothing in it can end a path segment or a query value.
pub proof fn percent_encoding_alphabet(bytes: Seq<u8>)
    ensures
        is_ascii_chars(percent_encoded(bytes)),
        forall|i: int|
            0 <= i < percent_encoded(bytes).len() ==> {
                let c = #[trigger] percent_encoded(bytes)[i];
                c == '%' || unreserved(c as u8)
            },
    decreases bytes.len(),
{
    if bytes.len() > 0 {
        percent_encoding_alphabet(bytes.drop_first());
        let head = percent_byte(bytes[0]);
        let tail = percent_encoded(bytes.drop_first());
        assert forall|i: int| 0 <= i < percent_encoded(bytes).len() implies ({
            let c = #[trigger] percent_encoded(bytes)[i];
            (c == '%' || unreserved(c as u8)) && (c as u32) < 0x80
        }) by {
            if i >= head.len() {
                assert(percent_encoded(bytes)[i] == tail[i - head.len()]);
            } else {
                assert(percent_encoded(bytes)[i] == head[i]);
            }
        }
    }
}

proof fn percent_decoding_undoes_encoding(bytes: Seq<u8>)
    ensures
        percent_decoded(ascii_bytes(percent_encoded(bytes))) == bytes,
    decreases bytes.len(),
{
    let all = percent_encoded(bytes);
    if bytes.len() > 0 {
        let rest = bytes.drop_first();
        percent_decoding_undoes_encoding(rest);
        let head = percent_byte(bytes[0]);
        let tail = percent_encoded(rest);
        let coded = ascii_bytes(all);
        assert(all == head + tail);
        assert(seq![bytes[0]] + rest =~= bytes);
        if unreserved(bytes[0]) {
            assert(coded[0] == bytes[0]);
            assert(coded.drop_first() =~= ascii_bytes(tail));
        } else {
            assert(coded[0] == 0x25);
            assert(coded[1] == hex_digit(bytes[0] as int / 16) as u8);
            assert(coded[2] == hex_digit(bytes[0] as int % 16) as u8);
            assert(hex_pair(coded[1], coded[2]) == Some(bytes[0]));
            assert(coded.skip(3) =~= ascii_bytes(tail));
        }
    } else {
        assert(ascii_bytes(all) =~= Seq::<u8>::empty());
    }
}

/// Decoding what `url_encode` wrote gives the text back, for every text.
pub proof fn url_coding_round_trip(text: Seq<char>)
    ensures
        valid_utf8(percent_decoded(encode_utf8(percent_encoded(encode_utf8(text))))),
        decode_utf8(percent_decoded(encode_utf8(percent_encoded(encode_utf8(text))))) == text,
{
    let bytes = encode_utf8(text);
    percent_encoding_alphabet(bytes);
    vstd::utf8::is_ascii_chars_encode_utf8(percent_encoded(bytes));
    assert(encode_utf8(percent_encoded(bytes)) =~= ascii_bytes(percent_encoded(bytes)));
    percent_decoding_undoes_encoding(bytes);
    vstd::utf8::encode_utf8_valid_utf8(text);
    vstd::utf8::encode_utf8_decode_utf8(text);
}

/// Two part ids with the same encoded segment are the same part id.
pub proof fn part_segments_do_not_collide(a: Seq<char>, b: Seq<char>)
    requires
        percent_encoded(encode_utf8(a)) == percent_encoded(encode_utf8(b)),
    ensures
        a == b,
{
    url_coding_round_trip(a);
    url_coding_round_trip(b);
}

// ---------------------------------------------------------------------------
// Base64
// ---------------------------------------------------------------------------

/// What one byte of base64 text stands for.
pub enum Symbol {
    Sextet(u8),
    Padding,
    Foreign,
}

/// Both alphabets are read: `-` and `+` stand for 62, `_` and `/` for 63.
pub open spec fn symbol(b: u8) -> Symbol {
    if 0x41 <= b <= 0x5a {
        Symbol::Sextet((b - 0x41) as u8)
    } else if 0x61 <= b <= 0x7a {
        Symbol::Sextet((b - 0x61 + 26) as u8)
    } else if 0x30 <= b <= 0x39 {
        Symbol::Sextet((b - 0x30 + 52) as u8)
    } else if b == 0x2d || b == 0x2b {
        Symbol::Sextet(62)
    } else if b == 0x5f || b == 0x2f {
        Symbol::Sextet(63)
    } else if b == 0x3d {
        Symbol::Padding
    } else {
        Symbol::Foreign
    }
}

fn symbol_of(b: u8) -> (r: Symbol)
    ensures
        r == symbol(b),
{
    if 0x41 <= b && b <= 0x5a {
        Symbol::Sextet(b - 0x41)
    } else if 0x61 <= b && b <= 0x7a {
        Symbol::Sextet(b - 0x61 + 26)
    } else if 0x30 <= b && b <= 0x39 {
        Symbol::Sextet(b - 0x30 + 52)
    } else if b == 0x2d || b == 0x2b {
        Symbol::Sextet(62)
    } else if b == 0x5f || b == 0x2f {
        Symbol::Sextet(63)
    } else if b == 0x3d {
        Symbol::Padding
    } else {
        Symbol::Foreign
    }
}

/// `2^bits` for the number of bits that a byte boundary can leave over.
pub open spec fn place(bits: int) -> int {
    if bits <= 0 {
        1
    } else if bits <= 2 {
        4
    } else if bits <= 4 {
        16
    } else {
        64
    }
}

/// The bytes spelled by base64 text when `bits` bits with the value `acc` are left
/// over from what came before: each symbol adds six bits, every eight bits are a
/// byte, padding adds nothing, and a foreign character spoils the whole.
pub open spec fn sextets_decoded(text: Seq<u8>, acc: int, bits: int) -> Option<Seq<u8>>
    decreases text.len(),
{
    if text.len() == 0 {
        Some(Seq::empty())
    } else {
        match symbol(text[0]) {
            Symbol::Foreign => None,
            Symbol::Padding => sextets_decoded(text.drop_first(), acc, bits),
            Symbol::Sextet(v) => if bits < 2 {
                sextets_decoded(text.drop_first(), acc * 64 + v, bits + 6)
            } else {
                let left = bits - 2;
                match sextets_decoded(
                    text.drop_first(),
                    (acc * 64 + v) % place(left),
                    left,
                ) {
                    Some(tail) => Some(seq![((acc * 64 + v) / place(left)) as u8] + tail),
                    None => None,
                }
            },
        }
    }
}

/// The bytes that base64 text of either alphabet spells.
pub open spec fn base64_decoded(text: Seq<char>) -> Option<Seq<u8>> {
    sextets_decoded(encode_utf8(text), 0, 0)
}

/// Decodes base64 text of either alphabet, with or without padding. Bits left over at
/// the end are dropped.
pub fn base64url_decode(input: &str) -> (r: Option<Vec<u8>>)
    ensures
        match r {
            Some(bytes) => base64_decoded(input@) == Some(bytes@),
            None => base64_decoded(input@) is None,
        },
{
    let text = input.as_bytes();
    let mut out: Vec<u8> = Vec::new();
    let mut acc: u32 = 0;
    let mut bits: u32 = 0;
    let mut i: usize = 0;
    assert(text@.skip(0) =~= text@);
    let ghost whole = sextets_decoded(text@, 0, 0);
    assert(whole is Some ==> out@ + whole->0 =~= whole->0);
    while i < text.len()
        invariant
            i <= text@.len(),
            text@ == encode_utf8(input@),
            bits == 0 || bits == 2 || bits == 4 || bits == 6,
            acc < place(bits as int),
            whole == sextets_decoded(text@, 0, 0),
            whole is Some == sextets_decoded(text@.skip(i as int), acc as int, bits as int) is Some,
            whole is Some ==> whole->0 == out@ + sextets_decoded(
                text@.skip(i as int),
                acc as int,
                bits as int,
            )->0,
        decreases text@.len() - i,
    {
        let ghost rest = text@.skip(i as int);
        let ghost before = out@;
        assert(rest[0] == text@[i as int]);
        assert(rest.drop_first() =~= text@.skip(i + 1));
        match symbol_of(text[i]) {
            Symbol::Foreign => {
                assert(sextets_decoded(rest, acc as int, bits as int) is None);
                return None;
            },
            Symbol::Padding => {},
            Symbol::Sextet(value) => {
                let next: u32 = acc * 64 + value as u32;
                if bits < 2 {
                    acc = next;
                    bits = bits + 6;
                } else {
                    let left: u32 = bits - 2;
                    let unit: u32 = if left == 0 {
                        1
                    } else if left == 2 {
                        4
                    } else {
                        16
                    };
                    assert(unit == place(left as int));
                    let byte: u8 = (next / unit) as u8;
                    out.push(byte);
                    assert(forall|tail: Seq<u8>| #[trigger]
                        (before + (seq![byte] + tail)) =~= out@ + tail);
                    acc = next % unit;
                    bits = left;
                }
            },
        }
        i = i + 1;
    }
    assert(text@.skip(i as int) =~= Seq::<u8>::empty());
    assert(out@ + Seq::<u8>::empty() =~= out@);
    Some(out)
}

/// The base64 character of six bits, with the characters for 62 and 63 given.
pub open spec fn base64_char(v: int, c62: char, c63: char) -> char {
    if v < 26 {
        (0x41 + v) as char
    } else if v < 52 {
        (0x61 + (v - 26)) as char
    } else if v < 62 {
        (0x30 + (v - 52)) as char
    } else if v == 62 {
        c62
    } else {
        c63
    }
}

/// Base64 of bytes, three at a time: four characters for three bytes, and two or
/// three, with the padding, for one or two left at the end.
pub open spec fn base64_text(bytes: Seq<u8>, c62: char, c63: char, pad: bool) -> Seq<char>
    decreases bytes.len(),
{
    let c = |v: int| base64_char(v, c62, c63);
    if bytes.len() == 0 {
        Seq::empty()
    } else if bytes.len() == 1 {
        seq![c(bytes[0] as int / 4), c(bytes[0] as int % 4 * 16)] + (if pad {
            seq!['=', '=']
        } else {
            Seq::empty()
        })
    } else if bytes.len() == 2 {
        seq![
            c(bytes[0] as int / 4),
            c(bytes[0] as int % 4 * 16 + bytes[1] as int / 16),
            c(bytes[1] as int % 16 * 4),
        ] + (if pad {
            seq!['=']
        } else {
            Seq::empty()
        })
    } else {
        seq![
            c(bytes[0] as int / 4),
            c(bytes[0] as int % 4 * 16 + bytes[1] as int / 16),
            c(bytes[1] as int % 16 * 4 + bytes[2] as int / 64),
            c(bytes[2] as int % 64),
        ] + base64_text(bytes.skip(3), c62, c63, pad)
    }
}

/// Calls `base64::engine::general_purpose::STANDARD.encode`: the standard alphabet,
/// with padding.
#[verifier::external_body]
pub(crate) fn base64_encode(bytes: &[u8]) -> (r: String)
    ensures
        r@ == base64_text(bytes@, '+', '/', true),
{
    base64::engine::general_purpose::STANDARD.encode(bytes)
}

/// The URL-safe characters, or the standard ones.
pub open spec fn char62(url_safe: bool) -> char {
    if url_safe {
        '-'
    } else {
        '+'
    }
}

pub open spec fn char63(url_safe: bool) -> char {
    if url_safe {
        '_'
    } else {
        '/'
    }
}

/// Base64 text is ASCII.
pub proof fn base64_text_is_ascii(bytes: Seq<u8>, url_safe: bool, pad: bool)
    ensures
        is_ascii_chars(base64_text(bytes, char62(url_safe), char63(url_safe), pad)),
    decreases bytes.len(),
{
    if bytes.len() > 2 {
        base64_text_is_ascii(bytes.skip(3), url_safe, pad);
    }
}

proof fn base64_symbol(v: int, url_safe: bool)
    requires
        0 <= v < 64,
    ensures
        symbol(base64_char(v, char62(url_safe), char63(url_safe)) as u8) == Symbol::Sextet(v as u8),
{
}

/// One symbol after `bits` bits with the value `acc`.
proof fn sextet_step(text: Seq<u8>, v: int, acc: int, bits: int)
    requires
        text.len() > 0,
        0 <= v < 64,
        symbol(text[0]) == Symbol::Sextet(v as u8),
    ensures
        bits < 2 ==> sextets_decoded(text, acc, bits) == sextets_decoded(
            text.drop_first(),
            acc * 64 + v,
            bits + 6,
        ),
        bits >= 2 ==> sextets_decoded(text, acc, bits) == (match sextets_decoded(
            text.drop_first(),
            (acc * 64 + v) % place(bits - 2),
            bits - 2,
        ) {
            Some(tail) => Some(seq![((acc * 64 + v) / place(bits - 2)) as u8] + tail),
            None => None,
        }),
{
}

proof fn padding_adds_nothing(text: Seq<u8>, acc: int, bits: int)
    requires
        forall|i: int| 0 <= i < text.len() ==> text[i] == 0x3d,
    ensures
        sextets_decoded(text, acc, bits) == Some(Seq::<u8>::empty()),
    decreases text.len(),
{
    if text.len() > 0 {
        padding_adds_nothing(text.drop_first(), acc, bits);
    }
}

proof fn one_byte_undone(b0: int, text: Seq<u8>)
    requires
        0 <= b0 < 256,
        text.len() >= 2,
        symbol(text[0]) == Symbol::Sextet((b0 / 4) as u8),
        symbol(text[1]) == Symbol::Sextet((b0 % 4 * 16) as u8),
        forall|i: int| 2 <= i < text.len() ==> text[i] == 0x3d,
    ensures
        sextets_decoded(text, 0, 0) == Some(seq![b0 as u8]),
{
    let t1 = text.drop_first();
    let t2 = t1.drop_first();
    sextet_step(text, b0 / 4, 0, 0);
    sextet_step(t1, b0 % 4 * 16, b0 / 4, 6);
    padding_adds_nothing(t2, ((b0 / 4) * 64 + b0 % 4 * 16) % 16, 4);
    assert(((b0 / 4) * 64 + b0 % 4 * 16) / 16 == b0);
    assert(seq![b0 as u8] + Seq::<u8>::empty() =~= seq![b0 as u8]);
}

proof fn two_bytes_undone(b0: int, b1: int, text: Seq<u8>)
    requires
        0 <= b0 < 256,
        0 <= b1 < 256,
        text.len() >= 3,
        symbol(text[0]) == Symbol::Sextet((b0 / 4) as u8),
        symbol(text[1]) == Symbol::Sextet((b0 % 4 * 16 + b1 / 16) as u8),
        symbol(text[2]) == Symbol::Sextet((b1 % 16 * 4) as u8),
        forall|i: int| 3 <= i < text.len() ==> text[i] == 0x3d,
    ensures
        sextets_decoded(text, 0, 0) == Some(seq![b0 as u8, b1 as u8]),
{
    let v1 = b0 % 4 * 16 + b1 / 16;
    let v2 = b1 % 16 * 4;
    let t1 = text.drop_first();
    let t2 = t1.drop_first();
    let t3 = t2.drop_first();
    sextet_step(text, b0 / 4, 0, 0);
    sextet_step(t1, v1, b0 / 4, 6);
    assert(((b0 / 4) * 64 + v1) / 16 == b0);
    assert(((b0 / 4) * 64 + v1) % 16 == b1 / 16);
    sextet_step(t2, v2, b1 / 16, 4);
    assert(((b1 / 16) * 64 + v2) / 4 == b1);
    padding_adds_nothing(t3, ((b1 / 16) * 64 + v2) % 4, 2);
    assert(seq![b0 as u8] + (seq![b1 as u8] + Seq::<u8>::empty()) =~= seq![b0 as u8, b1 as u8]);
}

proof fn three_bytes_undone(b0: int, b1: int, b2: int, text: Seq<u8>, rest: Seq<u8>)
    requires
        0 <= b0 < 256,
        0 <= b1 < 256,
        0 <= b2 < 256,
        text.len() >= 4,
        symbol(text[0]) == Symbol::Sextet((b0 / 4) as u8),
        symbol(text[1]) == Symbol::Sextet((b0 % 4 * 16 + b1 / 16) as u8),
        symbol(text[2]) == Symbol::Sextet((b1 % 16 * 4 + b2 / 64) as u8),
        symbol(text[3]) == Symbol::Sextet((b2 % 64) as u8),
        sextets_decoded(text.skip(4), 0, 0) == Some(rest),
    ensures
        sextets_decoded(text, 0, 0) == Some(seq![b0 as u8, b1 as u8, b2 as u8] + rest),
{
    let v1 = b0 % 4 * 16 + b1 / 16;
    let v2 = b1 % 16 * 4 + b2 / 64;
    let v3 = b2 % 64;
    let t1 = text.drop_first();
    let t2 = t1.drop_first();
    let t3 = t2.drop_first();
    assert(t3.drop_first() =~= text.skip(4));
    sextet_step(text, b0 / 4, 0, 0);
    sextet_step(t1, v1, b0 / 4, 6);
    assert(((b0 / 4) * 64 + v1) / 16 == b0);
    assert(((b0 / 4) * 64 + v1) % 16 == b1 / 16);
    sextet_step(t2, v2, b1 / 16, 4);
    assert(((b1 / 16) * 64 + v2) / 4 == b1);
    assert(((b1 / 16) * 64 + v2) % 4 == b2 / 64);
    sextet_step(t3, v3, b2 / 64, 2);
    assert((b2 / 64) * 64 + v3 == b2);
    assert(seq![b0 as u8] + (seq![b1 as u8] + (seq![b2 as u8] + rest)) =~= seq![
        b0 as u8,
        b1 as u8,
        b2 as u8,
    ] + rest);
}

proof fn sextets_undo_base64(bytes: Seq<u8>, url_safe: bool, pad: bool)
    ensures
        sextets_decoded(
            ascii_bytes(base64_text(bytes, char62(url_safe), char63(url_safe), pad)),
            0,
            0,
        ) == Some(bytes),
    decreases bytes.len(),
{
    let text = ascii_bytes(base64_text(bytes, char62(url_safe), char63(url_safe), pad));
    if bytes.len() == 0 {
        assert(text =~= Seq::<u8>::empty());
        assert(Seq::<u8>::empty() =~= bytes);
    } else if bytes.len() == 1 {
        let b0 = bytes[0] as int;
        base64_symbol(b0 / 4, url_safe);
        base64_symbol(b0 % 4 * 16, url_safe);
        one_byte_undone(b0, text);
        assert(seq![b0 as u8] =~= bytes);
    } else if bytes.len() == 2 {
        let b0 = bytes[0] as int;
        let b1 = bytes[1] as int;
        base64_symbol(b0 / 4, url_safe);
        base64_symbol(b0 % 4 * 16 + b1 / 16, url_safe);
        base64_symbol(b1 % 16 * 4, url_safe);
        two_bytes_undone(b0, b1, text);
        assert(seq![b0 as u8, b1 as u8] =~= bytes);
    } else {
        let b0 = bytes[0] as int;
        let b1 = bytes[1] as int;
        let b2 = bytes[2] as int;
        let rest = bytes.skip(3);
        base64_symbol(b0 / 4, url_safe);
        base64_symbol(b0 % 4 * 16 + b1 / 16, url_safe);
        base64_symbol(b1 % 16 * 4 + b2 / 64, url_safe);
        base64_symbol(b2 % 64, url_safe);
        sextets_undo_base64(rest, url_safe, pad);
        assert(text.skip(4) =~= ascii_bytes(
            base64_text(rest, char62(url_safe), char63(url_safe), pad),
        ));
        three_bytes_undone(b0, b1, b2, text, rest);
        assert(seq![b0 as u8, b1 as u8, b2 as u8] + rest =~= bytes);
    }
}

/// Decoding base64 gives the bytes back, for every byte string, in either alphabet,
/// with padding or without.
pub proof fn base64_round_trip(bytes: Seq<u8>, url_safe: bool, pad: bool)
    ensures
        base64_decoded(base64_text(bytes, char62(url_safe), char63(url_safe), pad)) == Some(bytes),
{
    let text = base64_text(bytes, char62(url_safe), char63(url_safe), pad);
    base64_text_is_ascii(bytes, url_safe, pad);
    vstd::utf8::is_ascii_chars_encode_utf8(text);
    assert(encode_utf8(text) =~= ascii_bytes(text));
    sextets_undo_base64(bytes, url_safe, pad);
}

} // verus!
