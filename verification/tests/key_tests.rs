use irmaseal_wasm::key::user_key_document;

#[test]
fn key_is_written_as_a_json_string() {
    assert_eq!(user_key_document("c2VjcmV0"), Some(String::from("\"c2VjcmV0\"")));
}

#[test]
fn empty_key_is_an_empty_json_string() {
    assert_eq!(user_key_document(""), Some(String::from("\"\"")));
}

#[test]
fn key_with_quote_and_backslash_is_escaped() {
    assert_eq!(user_key_document("a\"b\\c"), Some(String::from("\"a\\\"b\\\\c\"")));
    assert_eq!(user_key_document("line\nbreak"), Some(String::from("\"line\\nbreak\"")));
}

#[test]
fn key_document_reads_back_as_the_key() {
    let key = "AAEC/+8=\t\"x\"";
    let doc = user_key_document(key).unwrap();
    let back: String = serde_json::from_str(&doc).unwrap();
    assert_eq!(back, key);
}

#[test]
fn same_key_same_document() {
    assert_eq!(user_key_document("abc+/="), user_key_document("abc+/="));
}

#[test]
fn every_key_has_a_document() {
    let long = "k".repeat(100_000);
    let keys = [
        "",
        "c2VjcmV0",
        "\u{0}\u{1}\u{8}\u{c}\u{1f}\u{7f}",
        "\r\n\t",
        "\"\\/",
        "sleutel \u{e9}\u{20ac}\u{1f511}",
        long.as_str(),
    ];
    for key in keys {
        let doc = user_key_document(key);
        assert!(doc.is_some());
        let back: String = serde_json::from_str(&doc.unwrap()).unwrap();
        assert_eq!(back, key);
    }
}

#[test]
fn control_characters_are_escaped_in_the_document() {
    assert_eq!(
        user_key_document("\u{1}\u{8}\u{c}\r\t"),
        Some(String::from("\"\\u0001\\b\\f\\r\\t\""))
    );
}
