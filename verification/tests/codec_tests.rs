//! Tests for the page codec and the decimal formatter.
use twitter_cursor::codec::CursorData;
use twitter_cursor::errors::Error;
use twitter_cursor::numfmt::usize_to_dec;

fn decode(body: &[u8]) -> CursorData {
    CursorData::from_slice(body).unwrap()
}

#[test]
fn decodes_items_and_both_cursors() {
    let cd = decode(br#"{"ids":[1,2,3],"next_cursor_str":"123","prev_cursor_str":"0"}"#);
    assert_eq!(cd.values, vec![1, 2, 3]);
    assert_eq!(cd.next_cursor_str, "123");
    assert_eq!(cd.prev_cursor_str, "0");
}

#[test]
fn missing_keys_default_to_empty() {
    let cd = decode(br#"{}"#);
    assert_eq!(cd.values, Vec::<usize>::new());
    assert_eq!(cd.next_cursor_str, "");
    assert_eq!(cd.prev_cursor_str, "");
}

#[test]
fn item_key_may_have_any_name() {
    let cd = decode(br#"{"followers":[10,20],"next_cursor_str":"7","prev_cursor_str":"0"}"#);
    assert_eq!(cd.values, vec![10, 20]);
    assert_eq!(cd.next_cursor_str, "7");
}

#[test]
fn last_decodable_item_key_wins() {
    // serde_json's default map iterates keys in sorted order: "b" comes last.
    let cd = decode(br#"{"a":[1],"b":[2]}"#);
    assert_eq!(cd.values, vec![2]);
}

#[test]
fn non_array_and_undecodable_values_are_skipped() {
    let cd = decode(br#"{"note":"hi","ids":[5],"flags":[true],"floats":[1.5],"neg":[-1]}"#);
    assert_eq!(cd.values, vec![5]);
}

#[test]
fn empty_item_array_decodes_to_no_items() {
    let cd = decode(br#"{"ids":[],"next_cursor_str":"5","prev_cursor_str":"0"}"#);
    assert_eq!(cd.values, Vec::<usize>::new());
    assert_eq!(cd.next_cursor_str, "5");
}

#[test]
fn non_object_body_is_a_decode_error() {
    assert_eq!(CursorData::from_slice(br#"[1,2,3]"#).unwrap_err(), Error::Decode);
    assert_eq!(CursorData::from_slice(br#""str""#).unwrap_err(), Error::Decode);
}

#[test]
fn unparsable_body_is_a_decode_error() {
    assert_eq!(CursorData::from_slice(b"{not json").unwrap_err(), Error::Decode);
}

#[test]
fn non_string_cursor_value_is_a_decode_error() {
    assert_eq!(
        CursorData::from_slice(br#"{"next_cursor_str":5}"#).unwrap_err(),
        Error::Decode
    );
    assert_eq!(
        CursorData::from_slice(br#"{"prev_cursor_str":[1]}"#).unwrap_err(),
        Error::Decode
    );
}

#[test]
fn default_page_is_empty() {
    let cd = CursorData::default();
    assert_eq!(cd.values, Vec::<usize>::new());
    assert_eq!(cd.next_cursor_str, "");
    assert_eq!(cd.prev_cursor_str, "");
}

#[test]
fn decimal_formatting_matches_expected_numerals() {
    assert_eq!(usize_to_dec(0), "0");
    assert_eq!(usize_to_dec(7), "7");
    assert_eq!(usize_to_dec(10), "10");
    assert_eq!(usize_to_dec(17076641), "17076641");
    assert_eq!(usize_to_dec(usize::MAX), usize::MAX.to_string());
}
