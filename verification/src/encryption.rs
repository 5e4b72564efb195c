//! Payload encryption for private encrypted channels: AES-256-CBC with a
//! random IV prepended, carried as base64.
use vstd::prelude::*;
use vstd::utf8::{decode_utf8, encode_utf8, valid_utf8};

use crate::crypto::{
    aes256_cbc_decrypt, aes256_cbc_decrypt_of, aes256_cbc_encrypt, aes256_cbc_encrypt_of,
    base64_decode, base64_encode, base64_encode_of, random_iv,
};
use crate::error::{PusherError, PusherResult};
use crate::text::concat_bytes;

verus! {

broadcast use vstd::utf8::encode_utf8_valid_utf8, vstd::utf8::encode_utf8_decode_utf8;

/// The base64 text of `iv` followed by the AES-256-CBC encryption of the
/// UTF-8 bytes of `data` under `key` and `iv`.
pub open spec fn encrypted_text(data: Seq<char>, key: Seq<u8>, iv: Seq<u8>) -> Seq<char> {
    base64_encode_of(iv + aes256_cbc_encrypt_of(key, iv, encode_utf8(data)))
}

/// The bytes that `encrypted_text` carries in base64 (the IV, then the
/// ciphertext) number `16 + 16 * (n / 16 + 1)` for `n` bytes of UTF-8 data.
pub open spec fn encrypted_bytes_len(data: Seq<char>, key: Seq<u8>, iv: Seq<u8>) -> bool {
    (iv + aes256_cbc_encrypt_of(key, iv, encode_utf8(data))).len() == 16 + 16 * (encode_utf8(
        data,
    ).len() / 16 + 1)
}

/// Some bytes whose base64 text is `s`, when there are any.
pub open spec fn base64_bytes(s: Seq<char>) -> Seq<u8> {
    choose|b: Seq<u8>| base64_encode_of(b) == s
}

/// The plaintext of an encrypted payload: base64-decode it, take the first
/// 16 bytes as IV and decrypt the rest, then read the result as UTF-8.
/// `None` wherever one of these steps fails.
pub open spec fn decrypted_text(encrypted: Seq<char>, key: Seq<u8>) -> Option<Seq<char>> {
    if exists|b: Seq<u8>| base64_encode_of(b) == encrypted {
        let b = base64_bytes(encrypted);
        if b.len() < 16 {
            None
        } else {
            match aes256_cbc_decrypt_of(key, b.subrange(0, 16), b.subrange(16, b.len() as int)) {
                Some(p) => if valid_utf8(p) {
                    Some(decode_utf8(p))
                } else {
                    None
                },
                None => None,
            }
        }
    } else {
        None
    }
}

/// `String::from_utf8`: the text that the bytes encode when they are valid
/// UTF-8, else an error (converted to its display text).
#[verifier::external_body]
fn string_from_utf8(bytes: Vec<u8>) -> (r: Result<String, String>)
    ensures
        r is Ok <==> valid_utf8(bytes@),
        r is Ok ==> r->Ok_0@ == decode_utf8(bytes@),
{
    match String::from_utf8(bytes) {
        Ok(s) => Ok(s),
        Err(e) => Err(e.to_string()),
    }
}

/// Encrypts `data` under `shared_secret` with the given 16-byte IV:
/// base64 of the IV followed by the ciphertext.
pub fn encrypt_data_with_iv(data: &str, shared_secret: &[u8], iv: &[u8]) -> (r: PusherResult<
    String,
>)
    requires
        shared_secret@.len() == 32,
        iv@.len() == 16,
        encode_utf8(data@).len() <= usize::MAX / 4,
    ensures
        r is Ok,
        r->Ok_0@ == encrypted_text(data@, shared_secret@, iv@),
        encrypted_bytes_len(data@, shared_secret@, iv@),
{
    let plaintext = data.as_bytes();
    let ciphertext = aes256_cbc_encrypt(shared_secret, iv, plaintext);
    let result = concat_bytes(iv, ciphertext.as_slice());
    Ok(base64_encode(result.as_slice()))
}

/// Encrypts `data` under `shared_secret` with a fresh random IV: base64 of
/// the IV followed by the ciphertext.
pub fn encrypt_data(data: &str, shared_secret: &[u8]) -> (r: PusherResult<String>)
    requires
        shared_secret@.len() == 32,
        encode_utf8(data@).len() <= usize::MAX / 4,
    ensures
        r is Ok,
        exists|iv: Seq<u8>|
            iv.len() == 16 && r->Ok_0@ == encrypted_text(data@, shared_secret@, iv)
                && encrypted_bytes_len(data@, shared_secret@, iv),
{
    let iv = random_iv();
    encrypt_data_with_iv(data, shared_secret, iv.as_slice())
}

/// Decrypts a payload made by `encrypt_data` under the same shared secret.
/// Every failure (bad base64, fewer than 16 bytes, a key that is not 32
/// bytes long, bad padding, bad UTF-8) is a `DecryptionError`; fewer than
/// 16 bytes is `Invalid encrypted data`, and a wrong key length, checked
/// after those two, is `Invalid key length`. Decrypting what `encrypt_data`
/// produced gives back its input.
pub fn decrypt_data(encrypted_data: &str, shared_secret: &[u8]) -> (r: PusherResult<String>)
    ensures
        r is Ok <==> shared_secret@.len() == 32 && decrypted_text(encrypted_data@, shared_secret@) is Some,
        r is Ok ==> r->Ok_0@ == decrypted_text(encrypted_data@, shared_secret@)->Some_0,
        r is Err ==> r->Err_0 is DecryptionError,
        (exists|b: Seq<u8>| base64_encode_of(b) == encrypted_data@ && b.len() < 16) ==> (r is Err
            && r->Err_0.detail() == "Invalid encrypted data"@),
        shared_secret@.len() != 32 && (exists|b: Seq<u8>|
            base64_encode_of(b) == encrypted_data@ && b.len() >= 16) ==> (r is Err
            && r->Err_0.detail() == "Invalid key length"@),
        shared_secret@.len() == 32 ==> forall|data: Seq<char>, iv: Seq<u8>|
            iv.len() == 16 && #[trigger] encrypted_text(data, shared_secret@, iv)
                == encrypted_data@ ==> r is Ok && r->Ok_0@ == data,
{
    proof {
        reveal_strlit("Invalid encrypted data");
        reveal_strlit("Invalid key length");
    }
    let decoded = match base64_decode(encrypted_data) {
        Ok(d) => d,
        Err(m) => {
            return Err(PusherError::DecryptionError(m));
        },
    };
    let ghost key = shared_secret@;
    proof {
        assert(base64_encode_of(decoded@) == encrypted_data@);
        assert(base64_bytes(encrypted_data@) == decoded@);
        assert forall|data: Seq<char>, v: Seq<u8>|
            v.len() == 16 && #[trigger] encrypted_text(data, key, v) == encrypted_data@ implies decoded@
            == v + aes256_cbc_encrypt_of(key, v, encode_utf8(data)) by {
            let b = v + aes256_cbc_encrypt_of(key, v, encode_utf8(data));
            assert(base64_encode_of(b) == encrypted_data@);
        }
    }
    if decoded.len() < 16 {
        return Err(PusherError::DecryptionError(String::from_str("Invalid encrypted data")));
    }
    if shared_secret.len() != 32 {
        return Err(PusherError::DecryptionError(String::from_str("Invalid key length")));
    }
    let (iv, ciphertext) = decoded.as_slice().split_at(16);
    assert(iv@ == decoded@.subrange(0, 16));
    assert(ciphertext@ == decoded@.subrange(16, decoded@.len() as int));
    proof {
        assert forall|data: Seq<char>, v: Seq<u8>|
            v.len() == 16 && #[trigger] encrypted_text(data, key, v) == encrypted_data@ implies iv@
            == v && ciphertext@ == aes256_cbc_encrypt_of(key, v, encode_utf8(data)) by {
            let c = aes256_cbc_encrypt_of(key, v, encode_utf8(data));
            assert(decoded@ == v + c);
            assert((v + c).subrange(0, 16) =~= v);
            assert((v + c).subrange(16, (v + c).len() as int) =~= c);
        }
    }
    let plain = match aes256_cbc_decrypt(shared_secret, iv, ciphertext) {
        Ok(p) => p,
        Err(m) => {
            return Err(PusherError::DecryptionError(m));
        },
    };
    proof {
        assert forall|data: Seq<char>, v: Seq<u8>|
            v.len() == 16 && #[trigger] encrypted_text(data, key, v) == encrypted_data@ implies plain@
            == encode_utf8(data) by {
            assert(aes256_cbc_encrypt_of(key, iv@, encode_utf8(data)) == ciphertext@);
        }
    }
    match string_from_utf8(plain) {
        Ok(s) => Ok(s),
        Err(m) => Err(PusherError::DecryptionError(m)),
    }
}

} // verus!
