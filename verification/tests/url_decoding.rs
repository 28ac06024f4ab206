use foxhole::url_decoding::decode_query;

#[test]
fn decodes_escapes_and_plus() {
    assert_eq!(decode_query("a%20b+c"), Some("a b c".to_string()));
    assert_eq!(decode_query("plain"), Some("plain".to_string()));
    assert_eq!(decode_query(""), Some(String::new()));
}

#[test]
fn refuses_short_or_bad_escapes() {
    assert_eq!(decode_query("%zz"), None);
    assert_eq!(decode_query("%2"), None);
    assert_eq!(decode_query("abc%"), None);
}

#[test]
fn escape_with_sign_reads_like_from_str_radix() {
    assert_eq!(decode_query("%+f"), Some("\u{f}".to_string()));
}

#[test]
fn each_decoded_byte_becomes_one_character() {
    assert_eq!(decode_query("%C3%A9"), Some("\u{c3}\u{a9}".to_string()));
}

#[test]
fn later_keys_replace_earlier_ones() {
    let m = foxhole::url_decoding::map("a=1&b=2&a=3").unwrap();
    assert_eq!(m.get(&"a".to_string()), Some(&"3".to_string()));
    assert_eq!(m.get(&"b".to_string()), Some(&"2".to_string()));
    assert_eq!(m.get(&"c".to_string()), None);
}

#[test]
fn empty_pairs_are_skipped_and_values_may_be_empty() {
    let m = foxhole::url_decoding::map("&&x=&y=a=b").unwrap();
    assert_eq!(m.get(&"x".to_string()), Some(&String::new()));
    assert_eq!(m.get(&"y".to_string()), Some(&"a=b".to_string()));
}

#[test]
fn pair_without_equals_fails() {
    assert!(foxhole::url_decoding::map("novalue").is_none());
    assert!(foxhole::url_decoding::map("a=1&b").is_none());
}

#[test]
fn empty_query_is_an_empty_map() {
    let m = foxhole::url_decoding::map("").unwrap();
    assert_eq!(m.get(&String::new()), None);
}

#[test]
fn keys_and_values_are_decoded() {
    let m = foxhole::url_decoding::map("first%20name=J+Doe").unwrap();
    assert_eq!(m.get(&"first name".to_string()), Some(&"J Doe".to_string()));
    assert!(foxhole::url_decoding::map("a=%G1").is_none());
}
