use femail::base64url;
use femail::percent;

#[test]
fn percent_encode_keeps_unreserved_characters() {
    assert_eq!(percent::encode(""), "");
    assert_eq!(percent::encode("INBOX"), "INBOX");
    assert_eq!(percent::encode("Label_123"), "Label_123");
    assert_eq!(percent::encode("AZaz09-._~"), "AZaz09-._~");
}

#[test]
fn percent_encode_escapes_the_rest() {
    assert_eq!(percent::encode("My Label"), "My%20Label");
    assert_eq!(percent::encode("a/b?c=d&e"), "a%2Fb%3Fc%3Dd%26e");
    assert_eq!(percent::encode("100%"), "100%25");
    assert_eq!(percent::encode("@[`{"), "%40%5B%60%7B");
    assert_eq!(percent::encode("\n\u{7f}"), "%0A%7F");
}

#[test]
fn percent_encode_escapes_each_byte_of_a_character() {
    assert_eq!(percent::encode("é"), "%C3%A9");
    assert_eq!(percent::encode("✓"), "%E2%9C%93");
    assert_eq!(percent::encode("📁"), "%F0%9F%93%81");
}

#[test]
fn base64url_reads_whole_groups() {
    assert_eq!(base64url::decode(""), Some(vec![]));
    assert_eq!(base64url::decode("TWFu"), Some(b"Man".to_vec()));
    assert_eq!(base64url::decode("aGVsbG8h"), Some(b"hello!".to_vec()));
}

#[test]
fn base64url_reads_a_short_last_group() {
    assert_eq!(base64url::decode("TWE"), Some(b"Ma".to_vec()));
    assert_eq!(base64url::decode("TQ"), Some(b"M".to_vec()));
    assert_eq!(base64url::decode("aGVsbG8"), Some(b"hello".to_vec()));
}

#[test]
fn base64url_takes_padding_or_none() {
    assert_eq!(base64url::decode("TWE="), Some(b"Ma".to_vec()));
    assert_eq!(base64url::decode("TQ=="), Some(b"M".to_vec()));
    assert_eq!(base64url::decode("SGVsbG8sIHdvcmxkIQ=="), Some(b"Hello, world!".to_vec()));
    assert_eq!(base64url::decode("SGVsbG8sIHdvcmxkIQ"), Some(b"Hello, world!".to_vec()));
}

#[test]
fn base64url_uses_the_url_safe_alphabet() {
    assert_eq!(base64url::decode("-_8"), Some(vec![0xfb, 0xff]));
    assert_eq!(base64url::decode("____"), Some(vec![0xff, 0xff, 0xff]));
    assert_eq!(base64url::decode("AAAA"), Some(vec![0, 0, 0]));
    assert_eq!(base64url::decode("+/8"), None);
}

#[test]
fn base64url_reads_every_character_of_the_alphabet() {
    let alphabet = "ABCDEFGHIJKLMNOPQRSTUVWXYZabcdefghijklmnopqrstuvwxyz0123456789-_";
    let bytes = base64url::decode(alphabet).unwrap();
    assert_eq!(bytes.len(), 48);
    let mut bits: Vec<u8> = Vec::new();
    for byte in bytes {
        for shift in (0..8).rev() {
            bits.push((byte >> shift) & 1);
        }
    }
    for (index, group) in bits.chunks(6).enumerate() {
        let value = group.iter().fold(0usize, |acc, bit| acc * 2 + *bit as usize);
        assert_eq!(value, index);
    }
}

#[test]
fn base64url_refuses_what_is_not_base64() {
    assert_eq!(base64url::decode("T"), None);
    assert_eq!(base64url::decode("TWFuT"), None);
    assert_eq!(base64url::decode("TW u"), None);
    assert_eq!(base64url::decode("TWF\n"), None);
    assert_eq!(base64url::decode("TQ==="), None);
    assert_eq!(base64url::decode("T=Fu"), None);
    assert_eq!(base64url::decode("TWé"), None);
}

#[test]
fn base64url_text_reads_utf8() {
    assert_eq!(base64url::decode_text(""), Some(String::new()));
    assert_eq!(base64url::decode_text("aGVsbG8"), Some("hello".to_string()));
    assert_eq!(base64url::decode_text("4pyT"), Some("✓".to_string()));
    assert_eq!(base64url::decode_text("R3LDvMOfZSwgV2VsdCE="), Some("Grüße, Welt!".to_string()));
}

#[test]
fn base64url_text_refuses_what_is_not_utf8() {
    assert_eq!(base64url::decode_text("_w"), None);
    assert_eq!(base64url::decode_text("w6"), None);
    assert_eq!(base64url::decode_text("a"), None);
}
