//! Authenticated encryption for short string values.
//!
//! Three stateless operations: generate a 32-byte secret key, encrypt a
//! UTF-8 string under such a key, and decrypt the result back. The wire
//! format is the base64 text encoding (standard alphabet, padded) of
//! `nonce (12 bytes) ‖ ciphertext ‖ tag (16 bytes)`, sealed with
//! ChaCha20-Poly1305 under a fresh random nonce and no associated data.

use vstd::prelude::*;
use vstd::utf8::{decode_utf8, encode_utf8, valid_utf8};
use vstd::utf8::{decode_utf8_encode_utf8, encode_utf8_decode_utf8, encode_utf8_valid_utf8};
use vstd::slice::slice_subrange;

mod primitives;

use primitives::{aead_open, aead_seal, b64_decode, b64_encode, random_bytes, utf8_string};
pub use primitives::{b64_decode_of, open_of, seal_of, AEAD_MSG_MAX};

verus! {

/// Bytes in a secret key.
pub const KEY_LEN: usize = 32;

/// Bytes in a nonce, laid down in front of the sealed output.
pub const NONCE_LEN: usize = 12;

/// Bytes in the authentication tag that ends the sealed output.
pub const TAG_LEN: usize = 16;

/// Everything that can go wrong in the three operations. Every failure is
/// returned to the caller as one of these; none is logged or swallowed.
#[derive(Clone, Copy, Debug, PartialEq, Eq, Structural)]
pub enum CryptoError {
    /// The key handed in is not exactly 32 bytes.
    InvalidKeyLength,
    /// The cipher rejected the request; unreachable for a 32-byte key and
    /// any message of realistic length.
    CipherInitError,
    /// The secure random source yielded no bytes; no safe fallback exists.
    RandomSourceError,
    /// The encrypted text is not canonical base64.
    InvalidEncoding,
    /// The decoded bytes are too short to even hold a nonce.
    TruncatedCiphertext,
    /// The authentication tag did not verify: wrong key, corruption, or
    /// tampering. Which of the three is deliberately not disclosed.
    AuthenticationFailed,
    /// The decrypted bytes are not valid UTF-8.
    InvalidUtf8,
}

/// What decryption returns, at the level of the mathematical model: the
/// unique result that `decrypt_value` must produce for a given encoded text
/// and key. A sealed part longer than the cipher's keystream bound is
/// malformed sealed data — no encryption can produce it — and is rejected
/// as unauthenticated without invoking the cipher.
pub open spec fn decrypt_spec(enc: Seq<char>, key: Seq<u8>) -> Result<Seq<char>, CryptoError> {
    if key.len() != KEY_LEN {
        Err(CryptoError::InvalidKeyLength)
    } else {
        match b64_decode_of(enc) {
            None => Err(CryptoError::InvalidEncoding),
            Some(data) => {
                if data.len() < NONCE_LEN {
                    Err(CryptoError::TruncatedCiphertext)
                } else if data.len() > NONCE_LEN + AEAD_MSG_MAX + TAG_LEN {
                    Err(CryptoError::AuthenticationFailed)
                } else {
                    match open_of(key, data.take(NONCE_LEN as int), data.skip(NONCE_LEN as int)) {
                        None => Err(CryptoError::AuthenticationFailed),
                        Some(plain) => {
                            if valid_utf8(plain) {
                                Ok(decode_utf8(plain))
                            } else {
                                Err(CryptoError::InvalidUtf8)
                            }
                        },
                    }
                }
            },
        }
    }
}

/// A returned string, seen as the model sees it.
pub open spec fn seq_result(r: Result<String, CryptoError>) -> Result<Seq<char>, CryptoError> {
    match r {
        Ok(t) => Ok(t@),
        Err(e) => Err(e),
    }
}

/// Produce a fresh 32-byte secret key from the secure random source.
pub fn generate_key() -> (r: Result<Vec<u8>, CryptoError>)
    ensures
        r matches Ok(k) ==> k@.len() == KEY_LEN,
        r matches Err(e) ==> e == CryptoError::RandomSourceError,
{
    match random_bytes(KEY_LEN) {
        Some(k) => Ok(k),
        None => Err(CryptoError::RandomSourceError),
    }
}

/// Encrypt `value` under a 32-byte key: seal its UTF-8 bytes with
/// ChaCha20-Poly1305 under a fresh random nonce, put the nonce in front, and
/// encode the whole as base64 text.
///
/// On success the result decodes to exactly
/// `12 nonce bytes ‖ value's UTF-8 bytes, sealed under that nonce ‖ 16 tag
/// bytes` — the wire format stands in the fourth and fifth `ensures`
/// clauses — and decrypting it with the same key gives `value` back: the
/// round trip is the last clause.
pub fn encrypt_value(value: &str, key: &[u8]) -> (r: Result<String, CryptoError>)
    ensures
        r == Err::<String, CryptoError>(CryptoError::InvalidKeyLength) <==> key@.len() != KEY_LEN,
        r matches Err(e) ==> (e == CryptoError::InvalidKeyLength
            || e == CryptoError::RandomSourceError || e == CryptoError::CipherInitError),
        key@.len() == KEY_LEN ==> (r == Err::<String, CryptoError>(CryptoError::CipherInitError)
            <==> encode_utf8(value@).len() > AEAD_MSG_MAX),
        r matches Ok(enc) ==> (b64_decode_of(enc@) matches Some(data)
            && data.len() == NONCE_LEN + encode_utf8(value@).len() + TAG_LEN),
        r matches Ok(enc) ==> (exists|n: Seq<u8>|
            n.len() == NONCE_LEN && b64_decode_of(enc@) == Some(
                n + #[trigger] seal_of(key@, n, encode_utf8(value@)),
            )),
        r matches Ok(enc) ==> decrypt_spec(enc@, key@) == Ok::<Seq<char>, CryptoError>(value@),
{
    if key.len() != KEY_LEN {
        return Err(CryptoError::InvalidKeyLength);
    }
    let msg = value.as_bytes();
    if msg.len() as u64 > AEAD_MSG_MAX {
        return Err(CryptoError::CipherInitError);
    }
    let mut data = match random_bytes(NONCE_LEN) {
        Some(n) => n,
        None => return Err(CryptoError::RandomSourceError),
    };
    let ghost nonce = data@;
    let mut sealed = match aead_seal(key, data.as_slice(), msg) {
        Some(c) => c,
        None => return Err(CryptoError::CipherInitError),
    };
    data.append(&mut sealed);
    let enc = b64_encode(data.as_slice());
    proof {
        encode_utf8_valid_utf8(value@);
        encode_utf8_decode_utf8(value@);
        assert(data@.take(NONCE_LEN as int) =~= nonce);
        assert(data@.skip(NONCE_LEN as int) =~= seal_of(key@, nonce, msg@));
    }
    Ok(enc)
}

/// Decrypt what `encrypt_value` produced: decode the base64 text, split off
/// the 12-byte nonce, open the remainder under the key, and read the result
/// as UTF-8.
///
/// The first `ensures` clause pins the whole behaviour: the result, error
/// or string, is exactly what [`decrypt_spec`] says for this text and key.
/// The second adds that a success certifies its input: the decoded bytes
/// are a 12-byte nonce followed by precisely the seal, under this key and
/// that nonce, of the returned string's UTF-8 bytes — never a blob the
/// cipher would not itself have produced for that string.
pub fn decrypt_value(encrypted: &str, key: &[u8]) -> (r: Result<String, CryptoError>)
    ensures
        seq_result(r) == decrypt_spec(encrypted@, key@),
        r matches Ok(t) ==> (b64_decode_of(encrypted@) matches Some(data)
            && data.skip(NONCE_LEN as int) == seal_of(
                key@,
                data.take(NONCE_LEN as int),
                encode_utf8(t@),
            )),
{
    if key.len() != KEY_LEN {
        return Err(CryptoError::InvalidKeyLength);
    }
    let data = match b64_decode(encrypted) {
        Some(d) => d,
        None => return Err(CryptoError::InvalidEncoding),
    };
    if data.len() < NONCE_LEN {
        return Err(CryptoError::TruncatedCiphertext);
    }
    if data.len() as u64 > NONCE_LEN as u64 + AEAD_MSG_MAX + TAG_LEN as u64 {
        return Err(CryptoError::AuthenticationFailed);
    }
    let nonce = slice_subrange(data.as_slice(), 0, NONCE_LEN);
    let sealed = slice_subrange(data.as_slice(), NONCE_LEN, data.len());
    let plain = match aead_open(key, nonce, sealed) {
        Some(p) => p,
        None => return Err(CryptoError::AuthenticationFailed),
    };
    let ghost plain_bytes = plain@;
    match utf8_string(plain) {
        Some(t) => {
            proof {
                decode_utf8_encode_utf8(plain_bytes);
            }
            Ok(t)
        },
        None => Err(CryptoError::InvalidUtf8),
    }
}

} // verus!
