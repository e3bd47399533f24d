//! The boundary to the key-derivation primitive.
//!
//! The primitive is HKDF (RFC 5869) over HMAC-SHA-512 as the `hkdf` and `sha2`
//! crates implement it, with an empty `info` and 64 bytes of output. Nothing
//! in this module is proved: it gives the primitive's output a name and
//! states, on trust, that one call fills a key buffer with it.

use vstd::prelude::*;

verus! {

/// The 64 bytes of output keying material of HKDF-SHA-512 for the input keying
/// material `ikm` and the salt `salt`, with an empty `info`.
///
/// HKDF is a function of its inputs alone; what the bytes are is not stated
/// here.
pub uninterp spec fn hkdf_sha512(ikm: Seq<u8>, salt: Seq<u8>) -> Seq<u8>;

/// Runs HKDF-SHA-512 on `password` as input keying material and `salt` as
/// salt, and writes the output keying material over the whole of `key`.
///
/// Trusted, not proved. The body is `hkdf::Hkdf::<sha2::Sha512>::new`
/// (HKDF-Extract) followed by `Hkdf::expand` (HKDF-Expand) with an empty
/// `info`. The contract claims that after the call `key` holds exactly the
/// output that `hkdf_sha512` names, whatever it held before. `new` accepts a
/// salt and input keying material of any length. `expand` fails only for an
/// output longer than 255 hash lengths, that is 16320 bytes for SHA-512, so
/// for the 64 bytes asked for here it always succeeds, and then every byte of
/// the buffer is written from the first HMAC block.
#[verifier::external_body]
pub(crate) fn hkdf_derive(password: &[u8], salt: &[u8], key: &mut [u8; 64])
    ensures
        final(key)@ == hkdf_sha512(password@, salt@),
{
    hkdf::Hkdf::<sha2::Sha512>::new(Some(salt), password)
        .expand(&[], key)
        .expect("64 bytes are within the output limit of HKDF-SHA-512");
}

} // verus!
