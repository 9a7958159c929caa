use zeron_core::encoding::{base64url_decode, encode_part_segment, url_decode, url_encode};

#[test]
fn url_coding_round_trips() {
    let raw = "http://127.0.0.1:1234/callback?x=a b&y=%";
    assert_eq!(url_decode(&url_encode(raw)), raw);
    assert_eq!(url_encode("a b"), "a%20b");
}

#[test]
fn hash_and_colon_are_escaped_unreserved_pass_through() {
    assert_eq!(encode_part_segment("m1#c1"), "m1%23c1");
    assert_eq!(encode_part_segment("tool:call_9"), "tool%3Acall_9");
    assert_eq!(encode_part_segment("plain-id_0.diff~"), "plain-id_0.diff~");
}

#[test]
fn url_decoding_keeps_broken_escapes_and_reads_plus_as_space() {
    assert_eq!(url_decode("a+b%2Fc"), "a b/c");
    assert_eq!(url_decode("100%"), "100%");
    assert_eq!(url_decode("%4"), "%4");
    assert_eq!(url_decode("%zz%41"), "%zzA");
    assert_eq!(url_decode("%+9"), "\t");
    assert_eq!(url_decode("%C3%A9"), "é");
    assert_eq!(url_decode("%FF"), "\u{FFFD}");
}

#[test]
fn base64_reads_both_alphabets_and_refuses_others() {
    assert_eq!(base64url_decode("-_-_"), Some(vec![0xfb, 0xff, 0xbf]));
    assert_eq!(base64url_decode("+/+/"), Some(vec![0xfb, 0xff, 0xbf]));
    assert_eq!(base64url_decode("aGk="), Some(b"hi".to_vec()));
    assert_eq!(base64url_decode("aGk"), Some(b"hi".to_vec()));
    assert_eq!(base64url_decode("a"), Some(vec![]));
    assert_eq!(base64url_decode("a b"), None);
}
