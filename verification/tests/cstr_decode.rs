//! The character-pointer accessor decodes exactly the bytes before the
//! first zero byte, and nothing beyond it influences the result.

use limine::ptr::CStrPtr;

#[test]
fn decodes_text_before_the_terminator() {
    let p = CStrPtr::new(b"abc\0".to_vec());
    let decoded = p.to_bytes();
    assert_eq!(decoded, b"abc".to_vec());
    assert_eq!(decoded.len(), 3);
}

#[test]
fn decodes_the_empty_string() {
    let p = CStrPtr::new(b"\0".to_vec());
    assert_eq!(p.to_bytes(), Vec::<u8>::new());
}

#[test]
fn bytes_past_the_terminator_do_not_matter() {
    let plain = CStrPtr::new(b"abc\0".to_vec());
    let with_tail = CStrPtr::new(b"abc\0garbage after the end".to_vec());
    assert_eq!(plain.to_bytes(), with_tail.to_bytes());
}

#[test]
fn stops_at_the_first_of_several_terminators() {
    let p = CStrPtr::new(b"ab\0cd\0".to_vec());
    assert_eq!(p.to_bytes(), b"ab".to_vec());
}

#[test]
fn single_byte_text() {
    let p = CStrPtr::new(b"x\0".to_vec());
    assert_eq!(p.to_bytes(), b"x".to_vec());
}
