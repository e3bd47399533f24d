//! The callback stub takes any buffer and changes nothing.

use key_deriver::rust_callback;

#[test]
fn callback_accepts_an_empty_buffer() {
    rust_callback(&[]);
    let empty: Vec<u8> = Vec::new();
    rust_callback(&empty);
}

#[test]
fn callback_accepts_a_filled_buffer() {
    rust_callback(b"password123");
    rust_callback(&[0xffu8; 4096]);
}

#[test]
fn callback_leaves_the_buffer_unchanged() {
    let buffer = vec![1u8, 2, 3, 4, 5];
    let before = buffer.clone();
    rust_callback(&buffer);
    assert_eq!(buffer, before);
}
