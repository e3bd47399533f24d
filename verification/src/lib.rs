//! Derivation of a fixed-length key from a password and a salt.
//!
//! [`derive_key`] hands a password and a salt to HKDF-SHA-512 and returns the
//! 64 bytes that it writes. The primitive itself lives in the `hkdf` crate;
//! the module [`primitive`] holds the one place where it is called, and the
//! only contract here that is believed rather than proved.

use vstd::prelude::*;

pub mod primitive;

use crate::primitive::{hkdf_derive, hkdf_sha512};

verus! {

/// Length in bytes of every derived key.
pub const KEY_LEN: usize = 64;

/// Derives a key from `password` and `salt`.
///
/// Both inputs are plain bytes of any length, the empty sequence included; no
/// encoding is assumed, and both are only read. The call cannot fail. The
/// result is always `KEY_LEN` bytes long and is the HKDF-SHA-512 output for
/// these inputs, so the same password and salt always give the same key.
///
/// HKDF keys an HMAC with the salt, and HMAC pads a short key with zero
/// bytes: salts of up to 128 bytes that differ only in trailing zero bytes
/// give the same key.
pub fn derive_key(password: &[u8], salt: &[u8]) -> (key: [u8; KEY_LEN])
    ensures
        key@ == hkdf_sha512(password@, salt@),
        key@.len() == KEY_LEN,
{
    let mut key = [0u8; KEY_LEN];
    hkdf_derive(password, salt, &mut key);
    key
}

/// Derivation is deterministic: keys derived from equal passwords and equal
/// salts are equal, byte for byte.
///
/// `first` and `second` stand for what two calls of [`derive_key`] returned,
/// the one on `(password_a, salt_a)`, the other on `(password_b, salt_b)`.
pub proof fn lemma_derive_key_deterministic(
    password_a: Seq<u8>,
    salt_a: Seq<u8>,
    first: [u8; KEY_LEN],
    password_b: Seq<u8>,
    salt_b: Seq<u8>,
    second: [u8; KEY_LEN],
)
    requires
        password_a == password_b,
        salt_a == salt_b,
        first@ == hkdf_sha512(password_a, salt_a),
        second@ == hkdf_sha512(password_b, salt_b),
    ensures
        first == second,
{
    assert(first =~= second);
}

/// Callback stub: takes a buffer of any length, the empty one included, and
/// discards it. It reads nothing, returns nothing and cannot fail.
pub fn rust_callback(data: &[u8]) {
    let _ = data;
}

} // verus!
