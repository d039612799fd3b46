//! The event wire format: exact bytes, round trips, and rejection of
//! everything that encoding cannot produce.

use registrar::codec::{decode_event, encode_event, CompanyEvent};
use registrar::ids::Id;

#[test]
fn encode_produces_the_exact_bytes() {
    let event = CompanyEvent {
        id: Id::from_parts(1, 2),
        name: vec![0x41],
        url: None,
    };
    let bytes = encode_event(&event).expect("small event is encodable");
    let expected = vec![
        0, 0, 0, 0, 0, 0, 0, 1, // id, high half
        0, 0, 0, 0, 0, 0, 0, 2, // id, low half
        0, 0, 0, 0, 0, 0, 0, 1, // name length
        0x41, // name
        0,    // no URL
    ];
    assert_eq!(bytes, expected);
}

#[test]
fn encode_with_url_produces_the_exact_bytes() {
    let event = CompanyEvent {
        id: Id::from_parts(0x0102_0304_0506_0708, 0x090a_0b0c_0d0e_0f10),
        name: vec![0x41, 0x42],
        url: Some(vec![0x2f]),
    };
    let bytes = encode_event(&event).expect("small event is encodable");
    let expected = vec![
        1, 2, 3, 4, 5, 6, 7, 8, // id, high half
        9, 10, 11, 12, 13, 14, 15, 16, // id, low half
        0, 0, 0, 0, 0, 0, 0, 2, // name length
        0x41, 0x42, // name
        1, // URL present
        0, 0, 0, 0, 0, 0, 0, 1, // URL length
        0x2f, // URL
    ];
    assert_eq!(bytes, expected);
}

#[test]
fn round_trip_with_url() {
    let event = CompanyEvent {
        id: Id::from_parts(u64::MAX, 0),
        name: "Acme Holdings".as_bytes().to_vec(),
        url: Some("https://acme.example".as_bytes().to_vec()),
    };
    let bytes = encode_event(&event).expect("encodable");
    let back = decode_event(&bytes).expect("own encoding decodes");
    assert_eq!(back.id, event.id);
    assert_eq!(back.name, event.name);
    assert_eq!(back.url, event.url);
}

#[test]
fn round_trip_without_url() {
    let event = CompanyEvent {
        id: Id::from_parts(3, 4),
        name: Vec::new(),
        url: None,
    };
    let bytes = encode_event(&event).expect("encodable");
    let back = decode_event(&bytes).expect("own encoding decodes");
    assert_eq!(back.id, event.id);
    assert_eq!(back.name, Vec::<u8>::new());
    assert_eq!(back.url, None);
}

#[test]
fn decode_rejects_short_input() {
    assert!(decode_event(&Vec::new()).is_none());
    assert!(decode_event(&vec![0u8; 24]).is_none());
}

#[test]
fn decode_rejects_bad_presence_tag() {
    let event = CompanyEvent { id: Id::from_parts(1, 2), name: vec![0x41], url: None };
    let mut bytes = encode_event(&event).expect("encodable");
    let last = bytes.len() - 1;
    bytes[last] = 2; // neither absent nor present
    assert!(decode_event(&bytes).is_none());
}

#[test]
fn decode_rejects_trailing_bytes() {
    let event = CompanyEvent { id: Id::from_parts(1, 2), name: vec![0x41], url: None };
    let mut bytes = encode_event(&event).expect("encodable");
    bytes.push(0);
    assert!(decode_event(&bytes).is_none());
}

#[test]
fn decode_rejects_tampered_length() {
    let event = CompanyEvent { id: Id::from_parts(1, 2), name: vec![0x41, 0x42], url: None };
    let mut bytes = encode_event(&event).expect("encodable");
    bytes[23] = 200; // claim a name longer than the payload
    assert!(decode_event(&bytes).is_none());
}
