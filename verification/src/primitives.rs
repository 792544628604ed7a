//! Trusted boundary to the outside cryptographic and encoding crates.
//!
//! Everything the library takes on faith stands in this module: three named
//! results for the outside computations whose values no short formula can
//! state, and one wrapper per outside call, each with the contract that the
//! called crate's source supports.

use vstd::prelude::*;
use base64::Engine;
use chacha20poly1305::aead::Aead;
use chacha20poly1305::KeyInit;

verus! {

/// What base64's strict standard decoder returns for a given text: the byte
/// string whose canonical padded encoding the text is, or `None` where the
/// text is no such encoding.
pub uninterp spec fn b64_decode_of(s: Seq<char>) -> Option<Seq<u8>>;

/// What ChaCha20-Poly1305 sealing returns for a key, a nonce and a message:
/// the encrypted message followed by its 16-byte authentication tag.
pub uninterp spec fn seal_of(key: Seq<u8>, nonce: Seq<u8>, msg: Seq<u8>) -> Seq<u8>;

/// What ChaCha20-Poly1305 opening returns for a key, a nonce and a sealed
/// byte string: the decrypted message, or `None` where the tag does not
/// verify.
pub uninterp spec fn open_of(key: Seq<u8>, nonce: Seq<u8>, sealed: Seq<u8>) -> Option<Seq<u8>>;

/// Relies on `getrandom::getrandom`: on success the whole buffer has been
/// filled from the operating system's secure random source. Nothing is
/// assumed of the bytes themselves.
#[verifier::external_body]
pub(crate) fn random_bytes(n: usize) -> (r: Option<Vec<u8>>)
    ensures
        r matches Some(b) ==> b@.len() == n,
{
    let mut buf = vec![0u8; n];
    match getrandom::getrandom(&mut buf) {
        Ok(()) => Some(buf),
        Err(_) => None,
    }
}

/// Relies on `base64::engine::general_purpose::STANDARD.encode`: the result
/// is the canonical padded standard-alphabet encoding of the input, four
/// characters for every three bytes begun, and the engine's own strict
/// decoder inverts it.
#[verifier::external_body]
pub(crate) fn b64_encode(data: &[u8]) -> (r: String)
    ensures
        b64_decode_of(r@) == Some(data@),
        r@.len() == ((data@.len() + 2) / 3) * 4,
{
    base64::engine::general_purpose::STANDARD.encode(data)
}

/// Relies on `base64::engine::general_purpose::STANDARD.decode`: the engine
/// requires canonical padding and rejects set trailing bits, so it accepts
/// exactly the canonical encodings and returns the encoded bytes.
#[verifier::external_body]
pub(crate) fn b64_decode(s: &str) -> (r: Option<Vec<u8>>)
    ensures
        match r {
            Some(b) => b64_decode_of(s@) == Some(b@),
            None => b64_decode_of(s@) is None,
        },
{
    base64::engine::general_purpose::STANDARD.decode(s).ok()
}

/// The longest byte string the cipher seals or opens in one call. After the
/// block that keys the authenticator, the ChaCha20 keystream holds 2^32 - 2
/// further blocks of 64 bytes, while the cipher's own length guard admits
/// nearly one block more; in that gap the underlying keystream call panics
/// instead of returning, so the wrappers below refuse such lengths outright.
pub const AEAD_MSG_MAX: u64 = 0xffff_fffeu64 * 64;

/// Relies on `ChaCha20Poly1305::new_from_slice`, which accepts every 32-byte
/// key, and `Aead::encrypt`: the sealed output is the encrypted message
/// followed by its 16-byte Poly1305 tag, a deterministic function of key,
/// nonce and message alone; opening it with the same key and nonce yields the
/// message back. Below the keystream bound sealing always succeeds.
#[verifier::external_body]
pub(crate) fn aead_seal(key: &[u8], nonce: &[u8], msg: &[u8]) -> (r: Option<Vec<u8>>)
    requires
        key@.len() == 32,
        nonce@.len() == 12,
        msg@.len() <= AEAD_MSG_MAX,
    ensures
        r is Some,
        r matches Some(c) ==> (c@ == seal_of(key@, nonce@, msg@)
            && c@.len() == msg@.len() + 16
            && open_of(key@, nonce@, c@) == Some(msg@)),
{
    let cipher = match chacha20poly1305::ChaCha20Poly1305::new_from_slice(key) {
        Ok(c) => c,
        Err(_) => return None,
    };
    cipher.encrypt(chacha20poly1305::Nonce::from_slice(nonce), msg).ok()
}

/// Relies on `ChaCha20Poly1305::new_from_slice` and `Aead::decrypt`: the
/// trailing 16-byte Poly1305 tag is verified in constant time, and the
/// decrypted message comes back only when it matches; any shorter input,
/// wrong key or altered byte makes the tag fail. A success moreover
/// identifies the input: for a fixed key and nonce each ciphertext has
/// exactly one valid tag, and sealing applies the same keystream the other
/// way, so what opens to a message is that message's seal.
#[verifier::external_body]
pub(crate) fn aead_open(key: &[u8], nonce: &[u8], sealed: &[u8]) -> (r: Option<Vec<u8>>)
    requires
        key@.len() == 32,
        nonce@.len() == 12,
        sealed@.len() <= AEAD_MSG_MAX + 16,
    ensures
        match r {
            Some(p) => open_of(key@, nonce@, sealed@) == Some(p@)
                && sealed@.len() == p@.len() + 16
                && sealed@ == seal_of(key@, nonce@, p@),
            None => open_of(key@, nonce@, sealed@) is None,
        },
{
    let cipher = match chacha20poly1305::ChaCha20Poly1305::new_from_slice(key) {
        Ok(c) => c,
        Err(_) => return None,
    };
    cipher.decrypt(chacha20poly1305::Nonce::from_slice(nonce), sealed).ok()
}

/// Relies on `String::from_utf8`: it succeeds exactly on valid UTF-8 and
/// returns the string those bytes encode.
#[verifier::external_body]
pub(crate) fn utf8_string(bytes: Vec<u8>) -> (r: Option<String>)
    ensures
        match r {
            Some(t) => vstd::utf8::valid_utf8(bytes@) && t@ == vstd::utf8::decode_utf8(bytes@),
            None => !vstd::utf8::valid_utf8(bytes@),
        },
{
    String::from_utf8(bytes).ok()
}

} // verus!
