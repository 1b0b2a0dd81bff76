//! URL-safe base64, in which the provider sends the bodies of messages.

use vstd::prelude::*;
use vstd::utf8::{decode_utf8, valid_utf8};

verus! {

/// The six bits that a character of the URL-safe base64 alphabet stands for.
pub open spec fn sextet(c: char) -> Option<u8> {
    if 'A' <= c <= 'Z' {
        Some((c as u32 - 0x41) as u8)
    } else if 'a' <= c <= 'z' {
        Some((c as u32 - 0x61 + 26) as u8)
    } else if '0' <= c <= '9' {
        Some((c as u32 - 0x30 + 52) as u8)
    } else if c == '-' {
        Some(62u8)
    } else if c == '_' {
        Some(63u8)
    } else {
        None
    }
}

/// `text` without the padding at its end: at most two `=`.
pub open spec fn without_padding(text: Seq<char>) -> Seq<char> {
    let n = text.len() as int;
    if n >= 2 && text[n - 1] == '=' && text[n - 2] == '=' {
        text.take(n - 2)
    } else if n >= 1 && text[n - 1] == '=' {
        text.take(n - 1)
    } else {
        text
    }
}

/// Whether `digits` is base64 without padding: only characters of the alphabet, and not
/// one left over after the groups of four.
pub open spec fn is_base64(digits: Seq<char>) -> bool {
    &&& digits.len() % 4 != 1
    &&& forall|i: int| 0 <= i < digits.len() ==> (#[trigger] sextet(digits[i])) is Some
}

/// The six bits of each character.
pub open spec fn sextets(digits: Seq<char>) -> Seq<u8> {
    Seq::new(digits.len(), |i: int| sextet(digits[i]).unwrap())
}

/// The bytes that a run of six-bit values holds: every four values give three bytes, three
/// at the end give two, two give one. Bits left over at the end are dropped.
pub open spec fn packed(values: Seq<u8>) -> Seq<u8>
    decreases values.len(),
{
    if values.len() < 2 {
        Seq::empty()
    } else {
        let first = (values[0] * 4 + values[1] / 16) as u8;
        if values.len() == 2 {
            seq![first]
        } else {
            let second = ((values[1] % 16) * 16 + values[2] / 4) as u8;
            if values.len() == 3 {
                seq![first, second]
            } else {
                let third = ((values[2] % 4) * 64 + values[3]) as u8;
                seq![first, second, third] + packed(values.skip(4))
            }
        }
    }
}

/// The bytes that URL-safe base64 `text`, padded or not, stands for; none where it is no
/// such text.
pub open spec fn decoded(text: Seq<char>) -> Option<Seq<u8>> {
    let digits = without_padding(text);
    if is_base64(digits) {
        Some(packed(sextets(digits)))
    } else {
        None
    }
}

/// The text that URL-safe base64 `text` stands for: its bytes read as UTF-8.
pub open spec fn decoded_text(text: Seq<char>) -> Option<Seq<char>> {
    match decoded(text) {
        Some(bytes) => if valid_utf8(bytes) {
            Some(decode_utf8(bytes))
        } else {
            None
        },
        None => None,
    }
}

/// The character of the URL-safe base64 alphabet that stands for six bits.
pub open spec fn base64_digit(bits: u8) -> char {
    if bits < 26 {
        (0x41 + bits) as u8 as char
    } else if bits < 52 {
        (0x61 + bits - 26) as u8 as char
    } else if bits < 62 {
        (0x30 + bits - 52) as u8 as char
    } else if bits == 62 {
        '-'
    } else {
        '_'
    }
}

/// The six-bit values that base64 writes for a run of bytes: every three bytes give four
/// values, two at the end give three, one gives two.
pub open spec fn unpacked(bytes: Seq<u8>) -> Seq<u8>
    decreases bytes.len(),
{
    if bytes.len() == 0 {
        Seq::empty()
    } else {
        let first = (bytes[0] / 4) as u8;
        if bytes.len() == 1 {
            seq![first, ((bytes[0] % 4) * 16) as u8]
        } else {
            let second = ((bytes[0] % 4) * 16 + bytes[1] / 16) as u8;
            if bytes.len() == 2 {
                seq![first, second, ((bytes[1] % 16) * 4) as u8]
            } else {
                let third = ((bytes[1] % 16) * 4 + bytes[2] / 64) as u8;
                seq![first, second, third, (bytes[2] % 64) as u8] + unpacked(bytes.skip(3))
            }
        }
    }
}

/// URL-safe base64 without padding for a run of bytes.
pub open spec fn encoded(bytes: Seq<u8>) -> Seq<char> {
    unpacked(bytes).map_values(|bits: u8| base64_digit(bits))
}

/// URL-safe base64 for a run of bytes, padded with `=` to a whole number of groups of four.
pub open spec fn padded(bytes: Seq<u8>) -> Seq<char> {
    let digits = encoded(bytes);
    if digits.len() % 4 == 2 {
        digits + seq!['=', '=']
    } else if digits.len() % 4 == 3 {
        digits + seq!['=']
    } else {
        digits
    }
}

/// Packing undoes unpacking, and what unpacking gives are six-bit values, never one alone
/// after the groups of four.
pub proof fn lemma_packed_unpacked(bytes: Seq<u8>)
    ensures
        packed(unpacked(bytes)) == bytes,
        unpacked(bytes).len() % 4 != 1,
        forall|i: int| 0 <= i < unpacked(bytes).len() ==> #[trigger] unpacked(bytes)[i] < 64,
    decreases bytes.len(),
{
    if bytes.len() >= 3 {
        let rest = bytes.skip(3);
        lemma_packed_unpacked(rest);
        let values = unpacked(bytes);
        assert(values.skip(4) =~= unpacked(rest));
        assert(packed(values) =~= seq![bytes[0], bytes[1], bytes[2]] + rest);
    }
}

/// Each character of the alphabet stands for the six bits that it was chosen for, and
/// none of them is the padding character.
pub proof fn lemma_digit_is_read_back(bits: u8)
    requires
        bits < 64,
    ensures
        sextet(base64_digit(bits)) == Some(bits),
        base64_digit(bits) != '=',
{
}

/// Decoding undoes encoding: every run of bytes is what its URL-safe base64 decodes to,
/// with the padding that brings it to a whole number of groups, and without.
pub proof fn lemma_decoding_undoes_encoding(bytes: Seq<u8>)
    ensures
        decoded(encoded(bytes)) == Some(bytes),
        decoded(padded(bytes)) == Some(bytes),
{
    let values = unpacked(bytes);
    let digits = encoded(bytes);
    lemma_packed_unpacked(bytes);
    assert forall|i: int| 0 <= i < digits.len() implies sextet(#[trigger] digits[i]) == Some(
        values[i],
    ) && digits[i] != '=' by {
        lemma_digit_is_read_back(values[i]);
    }
    assert(sextets(digits) =~= values);
    assert(without_padding(padded(bytes)) == digits);
}

fn sextet_of(b: u8) -> (v: Option<u8>)
    requires
        b < 128,
    ensures
        v == sextet(b as char),
        v matches Some(bits) ==> bits < 64,
{
    if 0x41 <= b && b <= 0x5A {
        Some(b - 0x41)
    } else if 0x61 <= b && b <= 0x7A {
        Some(b - 0x61 + 26)
    } else if 0x30 <= b && b <= 0x39 {
        Some(b - 0x30 + 52)
    } else if b == 0x2D {
        Some(62)
    } else if b == 0x5F {
        Some(63)
    } else {
        None
    }
}

/// Every character of the base64 alphabet is an ASCII character.
proof fn lemma_sextet_ascii(c: char)
    ensures
        sextet(c) is Some || c == '=' ==> '\0' <= c <= '\u{7f}',
        sextet(c) matches Some(bits) ==> bits < 64,
{
}

/// Text with a character outside ASCII is no base64.
proof fn lemma_base64_is_ascii(text: Seq<char>)
    requires
        is_base64(without_padding(text)),
    ensures
        vstd::utf8::is_ascii_chars(text),
{
    let digits = without_padding(text);
    assert forall|i: int| 0 <= i < text.len() implies '\0' <= #[trigger] text[i]
        <= '\u{7f}' by {
        lemma_sextet_ascii(text[i]);
        if i < digits.len() {
            assert(sextet(digits[i]) is Some);
        }
    }
}

/// Reads the six-bit values of base64 `text`, whose padding is left out.
fn read_sextets(text: &str) -> (out: Option<Vec<u8>>)
    ensures
        match out {
            Some(values) => is_base64(without_padding(text@)) && values@ == sextets(
                without_padding(text@),
            ),
            None => !is_base64(without_padding(text@)),
        },
{
    let ghost digits = without_padding(text@);
    if !text.is_ascii() {
        proof {
            if is_base64(digits) {
                lemma_base64_is_ascii(text@);
            }
        }
        return None;
    }
    let bytes = text.as_bytes();
    proof {
        vstd::string::is_ascii_spec_bytes(text);
    }
    let mut n: usize = bytes.len();
    if n >= 2 && bytes[n - 1] == 0x3D && bytes[n - 2] == 0x3D {
        n = n - 2;
    } else if n >= 1 && bytes[n - 1] == 0x3D {
        n = n - 1;
    }
    let mut values: Vec<u8> = Vec::new();
    let mut i: usize = 0;
    while i < n
        invariant
            i <= n <= bytes.len(),
            bytes@.len() == text@.len(),
            digits == without_padding(text@),
            digits == text@.take(n as int),
            forall|k: int|
                0 <= k < text@.len() ==> (#[trigger] bytes@[k]) as char == text@[k] && bytes@[k]
                    < 128,
            values@.len() == i,
            forall|k: int| 0 <= k < i ==> sextet(digits[k]) == Some(#[trigger] values@[k]),
        decreases n - i,
    {
        match sextet_of(bytes[i]) {
            Some(v) => {
                values.push(v);
            },
            None => {
                assert(sextet(digits[i as int]) is None);
                return None;
            },
        }
        i += 1;
    }
    if n % 4 == 1 {
        return None;
    }
    assert(is_base64(digits)) by {
        assert forall|k: int| 0 <= k < digits.len() implies (#[trigger] sextet(digits[k]))
            is Some by {
            assert(sextet(digits[k]) == Some(values@[k]));
        }
    }
    Some(values)
}

/// Packs six-bit values into bytes.
fn pack(values: &Vec<u8>) -> (out: Vec<u8>)
    requires
        forall|k: int| 0 <= k < values@.len() ==> #[trigger] values@[k] < 64,
    ensures
        out@ == packed(values@),
{
    let n = values.len();
    let mut out: Vec<u8> = Vec::new();
    let mut j: usize = 0;
    assert(values@.skip(0) =~= values@);
    while n - j >= 4
        invariant
            j <= n,
            n == values@.len(),
            forall|k: int| 0 <= k < values@.len() ==> #[trigger] values@[k] < 64,
            packed(values@) == out@ + packed(values@.skip(j as int)),
        decreases n - j,
    {
        let a = values[j];
        let b = values[j + 1];
        let c = values[j + 2];
        let d = values[j + 3];
        out.push(a * 4 + b / 16);
        out.push((b % 16) * 16 + c / 4);
        out.push((c % 4) * 64 + d);
        assert(values@.skip(j as int).skip(4) =~= values@.skip(j + 4));
        j += 4;
    }
    if n - j >= 2 {
        let a = values[j];
        let b = values[j + 1];
        out.push(a * 4 + b / 16);
        if n - j == 3 {
            let c = values[j + 2];
            out.push((b % 16) * 16 + c / 4);
        }
    }
    out
}

/// Decodes URL-safe base64, with or without padding.
pub fn decode(text: &str) -> (out: Option<Vec<u8>>)
    ensures
        match out {
            Some(bytes) => decoded(text@) == Some(bytes@),
            None => decoded(text@) is None,
        },
{
    match read_sextets(text) {
        Some(values) => Some(pack(&values)),
        None => None,
    }
}

/// `String::from_utf8` gives the text that the bytes encode, where they are UTF-8, and
/// fails where they are not.
#[verifier::external_body]
fn utf8_text(bytes: Vec<u8>) -> (out: Option<String>)
    ensures
        match out {
            Some(text) => valid_utf8(bytes@) && text@ == decode_utf8(bytes@),
            None => !valid_utf8(bytes@),
        },
{
    String::from_utf8(bytes).ok()
}

/// Decodes URL-safe base64 that holds UTF-8 text.
pub fn decode_text(text: &str) -> (out: Option<String>)
    ensures
        match out {
            Some(plain) => decoded_text(text@) == Some(plain@),
            None => decoded_text(text@) is None,
        },
{
    match decode(text) {
        Some(bytes) => utf8_text(bytes),
        None => None,
    }
}

} // verus!
