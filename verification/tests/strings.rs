//! The string bridge: C-buffer round trips, nul-byte rejection, and the
//! optimized length scan.

use nvdialog_rs::util::strlen;
use nvdialog_rs::{DynamicString, Error};

#[test]
fn round_trip_preserves_utf8_text() {
    let text = "héllo";
    let ds = DynamicString::new(Some(text.as_bytes().to_vec())).unwrap();
    let buffer = ds.as_ptr().clone();
    let back = DynamicString::from_native(&buffer);
    assert_eq!(back.as_str(), text.as_bytes());
    assert_eq!(String::from_utf8(back.as_str().clone()).unwrap(), "héllo");
}

#[test]
fn as_ptr_appends_exactly_one_nul() {
    let ds = DynamicString::new(Some(b"abc".to_vec())).unwrap();
    assert_eq!(ds.as_ptr().as_slice(), b"abc\0");
}

#[test]
fn new_rejects_embedded_nul() {
    let r = DynamicString::new(Some(b"ab\0cd".to_vec()));
    assert_eq!(r.unwrap_err(), Error::EmbeddedNull);
    let r = DynamicString::new(Some(b"\0".to_vec()));
    assert_eq!(r.unwrap_err(), Error::EmbeddedNull);
}

#[test]
fn new_none_is_empty_string() {
    let ds = DynamicString::new(None).unwrap();
    assert_eq!(ds.as_str().len(), 0);
    assert_eq!(ds.as_ptr().as_slice(), b"\0");
}

#[test]
fn duplicate_and_clone_copy_the_text() {
    let ds = DynamicString::new(Some(b"copy me".to_vec())).unwrap();
    let dup = ds.duplicate();
    assert_eq!(dup.as_str(), ds.as_str());
    let cl = ds.clone();
    assert_eq!(cl.as_str(), ds.as_str());
}

#[test]
fn from_native_stops_at_first_nul() {
    let buffer = b"front\0back\0".to_vec();
    let ds = DynamicString::from_native(&buffer);
    assert_eq!(ds.as_str(), b"front");
}

#[test]
fn strlen_short_string() {
    let buffer = b"Hello, world!\0".to_vec();
    assert_eq!(strlen(&buffer), 13);
}

#[test]
fn strlen_empty_string() {
    let buffer = b"\0".to_vec();
    assert_eq!(strlen(&buffer), 0);
}

#[test]
fn strlen_crosses_chunk_boundaries() {
    // long enough that the eight-byte fast scan runs several times
    let buffer = b"abcdefghijklmnopqrstuvwxyz0123456789\0".to_vec();
    assert_eq!(strlen(&buffer), 36);
    // nul exactly on a chunk boundary
    let buffer = b"12345678\0".to_vec();
    assert_eq!(strlen(&buffer), 8);
}

#[test]
fn strlen_handles_high_bit_bytes() {
    // é encodes as 0xc3 0xa9; 0x80 has only its high bit set, which the
    // masked fast scan must not mistake for a terminator
    let mut buffer = "héllo".as_bytes().to_vec();
    buffer.push(0x80);
    buffer.push(0);
    assert_eq!(strlen(&buffer), 7);
}

#[test]
fn strlen_ignores_bytes_after_the_nul() {
    let buffer = b"ab\0after the end".to_vec();
    assert_eq!(strlen(&buffer), 2);
}
