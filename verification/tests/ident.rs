use org_sog::ident::DocumentId;

#[test]
fn parse_accepts_twenty_four_hex_digits() {
    let id = DocumentId::parse("0123456789abcdefABCDEF01").unwrap();
    assert_eq!(
        id.bytes(),
        [0x01, 0x23, 0x45, 0x67, 0x89, 0xab, 0xcd, 0xef, 0xab, 0xcd, 0xef, 0x01]
    );
}

#[test]
fn to_hex_writes_lower_case() {
    let id = DocumentId::from_bytes([0x00, 0x0f, 0xf0, 0xff, 0x1a, 0xa1, 0x9b, 0xb9, 0x7c, 0xc7, 0xde, 0xed]);
    assert_eq!(id.to_hex(), "000ff0ff1aa19bb97cc7deed");
}

#[test]
fn hex_text_reads_back_to_the_same_identifier() {
    let id = DocumentId::from_bytes([1, 2, 3, 4, 5, 6, 7, 8, 9, 10, 11, 255]);
    let text = id.to_hex();
    assert_eq!(text.len(), 24);
    assert_eq!(DocumentId::parse(&text), Some(id));
}

#[test]
fn upper_case_reads_as_lower_case() {
    let upper = DocumentId::parse("ABCDEFABCDEFABCDEFABCDEF").unwrap();
    let lower = DocumentId::parse("abcdefabcdefabcdefabcdef").unwrap();
    assert_eq!(upper, lower);
    assert_eq!(upper.to_hex(), "abcdefabcdefabcdefabcdef");
}

#[test]
fn parse_rejects_wrong_lengths() {
    assert_eq!(DocumentId::parse(""), None);
    assert_eq!(DocumentId::parse("0123456789abcdef0123456"), None);
    assert_eq!(DocumentId::parse("0123456789abcdef012345678"), None);
    assert_eq!(DocumentId::parse("0123456789abcdef01234567ab"), None);
}

#[test]
fn parse_rejects_other_characters() {
    assert_eq!(DocumentId::parse("0123456789abcdef0123456g"), None);
    assert_eq!(DocumentId::parse("0123456789abcdef 1234567"), None);
    assert_eq!(DocumentId::parse("not-an-object-id-at-all!"), None);
}

#[test]
fn parse_rejects_text_outside_ascii() {
    // Twelve two-byte characters: twenty-four bytes, no hex digit among them.
    assert_eq!(DocumentId::parse("éééééééééééé"), None);
    // Twenty-four characters, the last one a full-width digit.
    assert_eq!(DocumentId::parse("0123456789abcdef0123456７"), None);
}
