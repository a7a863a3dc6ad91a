//! Guid parsing and formatting tests.

use smo_server::guid::Guid;
use smo_server::packet::EncodingError;

#[test]
fn guid_text_round_trip() {
    let g = Guid { id: 0x0f0e0d0c0b0a09080706050403020100 };
    let text = g.to_hex_string();
    assert_eq!(Guid::from_str(&text).unwrap(), g);
}

#[test]
fn guid_parse_accepts_any_dash_layout_and_case() {
    let a = Guid::from_str("000102030405060708090a0b0c0d0e0f").unwrap();
    let b = Guid::from_str("00010203-0405-0607-08090A0B0C0D0E0F").unwrap();
    assert_eq!(a, b);
    // The first hex pair is the first wire byte (little-endian low byte).
    assert_eq!(a.id & 0xff, 0x00);
    assert_eq!((a.id >> 120) & 0xff, 0x0f);
}

#[test]
fn guid_format_places_dashes() {
    let g = Guid::from_str("000102030405060708090a0b0c0d0e0f").unwrap();
    // Dashes fall after bytes 4, 6, 8 and 10.
    assert_eq!(g.to_hex_string(), "0001020304-0506-0708-090a-0b0c0d0e0f");
    assert_eq!(Guid::from_str(&g.to_hex_string()).unwrap(), g);
}

#[test]
fn guid_parse_rejects_bad_input() {
    assert_eq!(Guid::from_str("not-a-guid").unwrap_err(), EncodingError::CustomError);
    assert_eq!(Guid::from_str("0001").unwrap_err(), EncodingError::CustomError);
    assert_eq!(
        Guid::from_str("000102030405060708090a0b0c0d0e0f00").unwrap_err(),
        EncodingError::CustomError
    );
    assert_eq!(
        Guid::from_str("g00102030405060708090a0b0c0d0e0f").unwrap_err(),
        EncodingError::CustomError
    );
}

#[test]
fn server_guid_is_zero() {
    assert_eq!(Guid::server().id, 0);
    assert_eq!(Guid::server().to_hex_string(), "0000000000-0000-0000-0000-0000000000");
}
