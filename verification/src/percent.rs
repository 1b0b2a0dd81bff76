//! Percent-encoding, for text that goes into a URL.

use vstd::prelude::*;
use vstd::utf8::encode_utf8;

verus! {

/// Whether the byte may stand in a URL as it is: a letter, a digit, or one of `-._~`.
pub open spec fn is_unreserved(b: u8) -> bool {
    ||| 0x41 <= b <= 0x5A
    ||| 0x61 <= b <= 0x7A
    ||| 0x30 <= b <= 0x39
    ||| b == 0x2D
    ||| b == 0x2E
    ||| b == 0x5F
    ||| b == 0x7E
}

/// The upper-case hexadecimal digit for `n`, which is below 16.
pub open spec fn hex_digit(n: nat) -> char {
    if n < 10 {
        (0x30 + n) as u8 as char
    } else {
        (0x37 + n) as u8 as char
    }
}

/// One byte as it stands in a URL: itself, or `%` and its two hexadecimal digits.
pub open spec fn escaped_byte(b: u8) -> Seq<char> {
    if is_unreserved(b) {
        seq![b as char]
    } else {
        seq!['%', hex_digit((b / 16) as nat), hex_digit((b % 16) as nat)]
    }
}

/// The bytes, each as it stands in a URL.
pub open spec fn escaped_bytes(bytes: Seq<u8>) -> Seq<char>
    decreases bytes.len(),
{
    if bytes.len() == 0 {
        Seq::empty()
    } else {
        escaped_bytes(bytes.drop_last()) + escaped_byte(bytes.last())
    }
}

/// `text` percent-encoded: its UTF-8 bytes, each as it stands in a URL.
pub open spec fn encoded(text: Seq<char>) -> Seq<char> {
    escaped_bytes(encode_utf8(text))
}

/// Whether a character stands for itself in a URL: a letter or digit of ASCII, or one of
/// `-._~`.
pub open spec fn stands_for_itself(c: char) -> bool {
    ||| 'A' <= c <= 'Z'
    ||| 'a' <= c <= 'z'
    ||| '0' <= c <= '9'
    ||| c == '-'
    ||| c == '.'
    ||| c == '_'
    ||| c == '~'
}

/// What a byte becomes in a URL is made of characters that stand for themselves and of
/// `%`, and it is one character long or three.
pub proof fn lemma_escaped_byte_is_safe(b: u8)
    ensures
        escaped_byte(b).len() == 1 || escaped_byte(b).len() == 3,
        forall|i: int|
            0 <= i < escaped_byte(b).len() ==> stands_for_itself(#[trigger] escaped_byte(b)[i])
                || escaped_byte(b)[i] == '%',
{
}

/// Percent-encoded text holds nothing that a URL gives a meaning to: every character of it
/// stands for itself or is the `%` of an escaped byte. So no text can add a separator, a
/// query or a fragment to the URL that it is put into.
pub proof fn lemma_encoded_is_safe(text: Seq<char>)
    ensures
        forall|i: int|
            0 <= i < encoded(text).len() ==> stands_for_itself(
                #[trigger] encoded(text)[i],
            ) || encoded(text)[i] == '%',
{
    lemma_escaped_bytes_are_safe(encode_utf8(text));
}

proof fn lemma_escaped_bytes_are_safe(bytes: Seq<u8>)
    ensures
        forall|i: int|
            0 <= i < escaped_bytes(bytes).len() ==> stands_for_itself(
                #[trigger] escaped_bytes(bytes)[i],
            ) || escaped_bytes(bytes)[i] == '%',
    decreases bytes.len(),
{
    if bytes.len() > 0 {
        lemma_escaped_bytes_are_safe(bytes.drop_last());
        lemma_escaped_byte_is_safe(bytes.last());
        let head = escaped_bytes(bytes.drop_last());
        let tail = escaped_byte(bytes.last());
        assert forall|i: int| 0 <= i < escaped_bytes(bytes).len() implies stands_for_itself(
            #[trigger] escaped_bytes(bytes)[i],
        ) || escaped_bytes(bytes)[i] == '%' by {
            if i < head.len() {
                assert(escaped_bytes(bytes)[i] == head[i]);
            } else {
                assert(escaped_bytes(bytes)[i] == tail[i - head.len()]);
            }
        }
    }
}

/// Text that needs no escaping is its own encoding.
pub proof fn lemma_plain_text_is_kept(text: Seq<char>)
    requires
        forall|i: int| 0 <= i < text.len() ==> stands_for_itself(#[trigger] text[i]),
    ensures
        encoded(text) == text,
{
    vstd::utf8::is_ascii_chars_encode_utf8(text);
    let bytes = encode_utf8(text);
    lemma_plain_bytes_are_kept(text, bytes, text.len() as int);
    assert(bytes.take(text.len() as int) =~= bytes);
}

proof fn lemma_plain_bytes_are_kept(text: Seq<char>, bytes: Seq<u8>, n: int)
    requires
        0 <= n <= text.len(),
        bytes.len() == text.len(),
        forall|i: int| 0 <= i < text.len() ==> stands_for_itself(#[trigger] text[i]),
        forall|i: int| 0 <= i < text.len() ==> text[i] as u8 == #[trigger] bytes[i],
    ensures
        escaped_bytes(bytes.take(n)) == text.take(n),
    decreases n,
{
    if n > 0 {
        lemma_plain_bytes_are_kept(text, bytes, n - 1);
        assert(bytes.take(n).drop_last() =~= bytes.take(n - 1));
    }
}

fn hex_char(n: u8) -> (c: char)
    requires
        n < 16,
    ensures
        c == hex_digit(n as nat),
{
    if n < 10 {
        (0x30 + n) as char
    } else {
        (0x37 + n) as char
    }
}

/// Percent-encodes `text` for use as a path segment or a query value.
pub fn encode(text: &str) -> (out: String)
    ensures
        out@ == encoded(text@),
{
    let bytes = text.as_bytes();
    let mut out = String::new();
    let mut i: usize = 0;
    while i < bytes.len()
        invariant
            i <= bytes.len(),
            out@ == escaped_bytes(bytes@.take(i as int)),
        decreases bytes.len() - i,
    {
        let b = bytes[i];
        let plain = (0x41 <= b && b <= 0x5A) || (0x61 <= b && b <= 0x7A) || (0x30 <= b && b
            <= 0x39) || b == 0x2D || b == 0x2E || b == 0x5F || b == 0x7E;
        if plain {
            out.push(b as char);
        } else {
            out.push('%');
            out.push(hex_char(b / 16));
            out.push(hex_char(b % 16));
        }
        assert(bytes@.take(i + 1).drop_last() =~= bytes@.take(i as int));
        i += 1;
    }
    assert(bytes@.take(bytes.len() as int) =~= bytes@);
    out
}

} // verus!
