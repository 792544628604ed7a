use base64::Engine;
use chacha20poly1305::aead::{Aead, KeyInit};
use chacha20poly1305::{ChaCha20Poly1305, Nonce};
use value_cipher::{decrypt_value, encrypt_value, generate_key, CryptoError};

#[test]
fn test_encrypt_decrypt() {
    let key = generate_key().unwrap();
    let original = "COUPON2024";

    let encrypted = encrypt_value(original, &key).unwrap();
    let decrypted = decrypt_value(&encrypted, &key).unwrap();

    assert_eq!(original, decrypted);
}

#[test]
fn round_trip_empty_string() {
    let key = [5u8; 32];
    let encrypted = encrypt_value("", &key).unwrap();
    assert_eq!(decrypt_value(&encrypted, &key).unwrap(), "");

    let decoded = base64::engine::general_purpose::STANDARD
        .decode(&encrypted)
        .unwrap();
    assert_eq!(decoded.len(), 12 + 0 + 16);
}

#[test]
fn round_trip_multibyte_utf8() {
    let key = generate_key().unwrap();
    let original = "caf\u{e9} \u{2615} \u{1f511}";
    let encrypted = encrypt_value(original, &key).unwrap();
    assert_eq!(decrypt_value(&encrypted, &key).unwrap(), original);
}

#[test]
fn key_sensitivity() {
    let k1 = [1u8; 32];
    let k2 = [2u8; 32];
    let encrypted = encrypt_value("COUPON2024", &k1).unwrap();
    assert_eq!(
        decrypt_value(&encrypted, &k2),
        Err(CryptoError::AuthenticationFailed)
    );
}

#[test]
fn tamper_detection_every_bit() {
    let key = [3u8; 32];
    let encrypted = encrypt_value("COUPON2024", &key).unwrap();
    let data = base64::engine::general_purpose::STANDARD
        .decode(&encrypted)
        .unwrap();
    for i in 0..data.len() {
        for bit in 0..8 {
            let mut tampered = data.clone();
            tampered[i] ^= 1u8 << bit;
            let reencoded = base64::engine::general_purpose::STANDARD.encode(&tampered);
            assert_eq!(
                decrypt_value(&reencoded, &key),
                Err(CryptoError::AuthenticationFailed)
            );
        }
    }
}

#[test]
fn nonce_uniqueness() {
    let key = [4u8; 32];
    let e1 = encrypt_value("COUPON2024", &key).unwrap();
    let e2 = encrypt_value("COUPON2024", &key).unwrap();
    assert_ne!(e1, e2);
}

#[test]
fn length_validation() {
    assert_eq!(
        encrypt_value("x", &[0u8; 16]),
        Err(CryptoError::InvalidKeyLength)
    );
    assert_eq!(
        decrypt_value("anything", &[0u8; 31]),
        Err(CryptoError::InvalidKeyLength)
    );
}

#[test]
fn truncation() {
    let key = [6u8; 32];
    let short = base64::engine::general_purpose::STANDARD.encode([1u8, 2, 3, 4, 5]);
    assert_eq!(
        decrypt_value(&short, &key),
        Err(CryptoError::TruncatedCiphertext)
    );
}

#[test]
fn nonce_alone_is_not_truncated_but_fails_authentication() {
    let key = [6u8; 32];
    let bare_nonce = base64::engine::general_purpose::STANDARD.encode([0u8; 12]);
    assert_eq!(
        decrypt_value(&bare_nonce, &key),
        Err(CryptoError::AuthenticationFailed)
    );
}

#[test]
fn invalid_encoding() {
    let key = [0u8; 32];
    assert_eq!(
        decrypt_value("@@@@", &key),
        Err(CryptoError::InvalidEncoding)
    );
    // Missing padding is rejected: the decoder requires the canonical form.
    assert_eq!(decrypt_value("AB", &key), Err(CryptoError::InvalidEncoding));
}

#[test]
fn invalid_utf8_plaintext() {
    let key = [7u8; 32];
    let nonce = [9u8; 12];
    let cipher = ChaCha20Poly1305::new_from_slice(&key).unwrap();
    let sealed = cipher
        .encrypt(Nonce::from_slice(&nonce), [0xffu8, 0xfe, 0x80].as_ref())
        .unwrap();
    let mut data = nonce.to_vec();
    data.extend_from_slice(&sealed);
    let encoded = base64::engine::general_purpose::STANDARD.encode(&data);
    assert_eq!(decrypt_value(&encoded, &key), Err(CryptoError::InvalidUtf8));
}

#[test]
fn concrete_scenario_zero_key() {
    let key = [0u8; 32];
    let encrypted = encrypt_value("COUPON2024", &key).unwrap();

    let decoded = base64::engine::general_purpose::STANDARD
        .decode(&encrypted)
        .unwrap();
    assert_eq!(decoded.len(), 12 + 10 + 16);

    assert_eq!(decrypt_value(&encrypted, &key).unwrap(), "COUPON2024");
}

#[test]
fn generated_keys_are_fresh_32_bytes() {
    let k1 = generate_key().unwrap();
    let k2 = generate_key().unwrap();
    assert_eq!(k1.len(), 32);
    assert_eq!(k2.len(), 32);
    assert_ne!(k1, k2);
}
