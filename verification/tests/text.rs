use moc2cmo::decompiler::XmlWriter;
use moc2cmo::text::{decimal_bytes, find_bytes};

#[test]
fn decimal_digits_of_numbers() {
    assert_eq!(decimal_bytes(0), b"0".to_vec());
    assert_eq!(decimal_bytes(7), b"7".to_vec());
    assert_eq!(decimal_bytes(1234), b"1234".to_vec());
    assert_eq!(decimal_bytes(u64::MAX), u64::MAX.to_string().into_bytes());
}

#[test]
fn find_bytes_returns_the_first_occurrence() {
    assert_eq!(find_bytes(b"abcabc", b"bc", 0), Some(1));
    assert_eq!(find_bytes(b"abcabc", b"bc", 2), Some(4));
    assert_eq!(find_bytes(b"abcabc", b"bd", 0), None);
    assert_eq!(find_bytes(b"ab", b"abc", 0), None);
    assert_eq!(find_bytes(b"abc", b"", 1), Some(1));
}

#[test]
fn xml_escape_replaces_markup_characters() {
    let mut xml = XmlWriter::new();
    xml.text("s", &[], "<a & 'b'>\"\r");
    xml.text("s", &[], "plain ü");
    assert_eq!(
        String::from_utf8(xml.finish()).unwrap(),
        "<s>&lt;a &amp; &apos;b&apos;&gt;&quot;&#13;</s>\n<s>plain ü</s>\n"
    );
}
