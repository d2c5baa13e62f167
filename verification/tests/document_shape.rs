use irclog::record::{collection_name, DateMessage};

#[test]
fn document_has_time_then_line() {
    let record = DateMessage { time: 100, message: String::from("A") };
    let doc = record.to_document();
    assert_eq!(doc.len(), 2);
    let keys: Vec<String> = doc.keys().cloned().collect();
    assert_eq!(keys, vec![String::from("time"), String::from("line")]);
    assert_eq!(doc.get_i64("time"), Ok(100));
    assert_eq!(doc.get_str("line"), Ok("A"));
}

#[test]
fn document_keeps_extreme_times_and_any_text() {
    let doc = DateMessage { time: i64::MIN, message: String::new() }.to_document();
    assert_eq!(doc.get_i64("time"), Ok(i64::MIN));
    assert_eq!(doc.get_str("line"), Ok(""));
    let text = ":nick!user@host PRIVMSG #chan :caf\u{e9} \u{1f600}\r\n";
    let doc = DateMessage { time: i64::MAX, message: String::from(text) }.to_document();
    assert_eq!(doc.get_i64("time"), Ok(i64::MAX));
    assert_eq!(doc.get_str("line"), Ok(text));
}

#[test]
fn document_encodes_as_the_stored_shape() {
    let doc = DateMessage { time: 100, message: String::from("A") }.to_document();
    let mut bytes: Vec<u8> = Vec::new();
    bson::encode_document(&mut bytes, &doc).unwrap();
    let expected: Vec<u8> = vec![
        31, 0, 0, 0, // length
        0x12, b't', b'i', b'm', b'e', 0, 100, 0, 0, 0, 0, 0, 0, 0, // int64 "time"
        0x02, b'l', b'i', b'n', b'e', 0, 2, 0, 0, 0, b'A', 0, // string "line"
        0,
    ];
    assert_eq!(bytes, expected);
}

#[test]
fn collection_is_named_raw() {
    assert_eq!(collection_name(), "raw");
}
