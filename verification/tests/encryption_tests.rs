use aes::cipher::{block_padding::Pkcs7, BlockEncryptMut, KeyIvInit};
use base64::Engine;
use pusher_rs::encryption::{decrypt_data, encrypt_data, encrypt_data_with_iv};
use pusher_rs::PusherError;

fn aes_cbc(key: &[u8], iv: &[u8; 16], plain: &[u8]) -> Vec<u8> {
    let cipher = cbc::Encryptor::<aes::Aes256>::new(key.into(), iv.into());
    let mut buffer = vec![0u8; plain.len() + 16];
    buffer[..plain.len()].copy_from_slice(plain);
    cipher.encrypt_padded_mut::<Pkcs7>(&mut buffer, plain.len()).unwrap().to_vec()
}

fn key() -> Vec<u8> {
    (0u8..32).collect()
}

#[test]
fn encrypt_then_decrypt_gives_back_the_text() {
    let k = key();
    for text in ["", "hello", "exactly sixteen!", "ünïcödé ✓ and more than one block of text"] {
        let payload = encrypt_data(text, &k).unwrap();
        assert_eq!(decrypt_data(&payload, &k).unwrap(), text);
    }
}

#[test]
fn encryption_with_fixed_iv_matches_aes_cbc() {
    let k = key();
    let iv = [7u8; 16];
    let payload = encrypt_data_with_iv("hello", &k, &iv).unwrap();
    let ct = aes_cbc(&k, &iv, b"hello");
    let mut all = iv.to_vec();
    all.extend_from_slice(&ct);
    assert_eq!(payload, base64::engine::general_purpose::STANDARD.encode(&all));
    assert_eq!(ct.len(), 16);
    assert_ne!(payload, "hello");
}

#[test]
fn random_iv_makes_payloads_differ() {
    let k = key();
    let a = encrypt_data("same", &k).unwrap();
    let b = encrypt_data("same", &k).unwrap();
    assert_ne!(a, b);
    let bytes = base64::engine::general_purpose::STANDARD.decode(&a).unwrap();
    assert_eq!(bytes.len(), 32);
}

#[test]
fn decrypt_rejects_bad_base64() {
    assert!(matches!(decrypt_data("not base64!", &key()), Err(PusherError::DecryptionError(_))));
}

#[test]
fn decrypt_rejects_short_data() {
    let short = base64::engine::general_purpose::STANDARD.encode([1u8; 15]);
    match decrypt_data(&short, &key()) {
        Err(PusherError::DecryptionError(m)) => assert_eq!(m, "Invalid encrypted data"),
        _ => panic!("expected a decryption error"),
    }
}

#[test]
fn decrypt_rejects_wrong_key_or_length() {
    let payload = encrypt_data("hello", &key()).unwrap();
    let other: Vec<u8> = vec![9u8; 32];
    assert!(decrypt_data(&payload, &other).is_err());
    let odd = base64::engine::general_purpose::STANDARD.encode([3u8; 20]);
    assert!(matches!(decrypt_data(&odd, &key()), Err(PusherError::DecryptionError(_))));
}

#[test]
fn decrypt_rejects_invalid_utf8() {
    let k = key();
    let iv = [0u8; 16];
    let ct = aes_cbc(&k, &iv, &[0xff, 0xfe]);
    let mut all = iv.to_vec();
    all.extend_from_slice(&ct);
    let payload = base64::engine::general_purpose::STANDARD.encode(&all);
    assert!(matches!(decrypt_data(&payload, &k), Err(PusherError::DecryptionError(_))));
}
