//! The cryptographic primitives and encodings that the client relies on:
//! HMAC-SHA256, SHA-256, MD5, hexadecimal, base64, AES-256-CBC and random IVs.
use vstd::prelude::*;

use aes::cipher::{block_padding::Pkcs7, BlockDecryptMut, BlockEncryptMut, KeyIvInit};
use base64::Engine as _;
use hmac::Mac;
use rand::Rng;
use sha2::Digest;

use crate::text::hex_digit;

verus! {

/// What HMAC-SHA256 computes over `msg` under `key`.
pub uninterp spec fn hmac_sha256_of(key: Seq<u8>, msg: Seq<u8>) -> Seq<u8>;

/// What SHA-256 computes over `data`.
pub uninterp spec fn sha256_of(data: Seq<u8>) -> Seq<u8>;

/// What MD5 computes over `data`.
pub uninterp spec fn md5_of(data: Seq<u8>) -> Seq<u8>;

/// What AES-256 in CBC mode with PKCS#7 padding makes of `plaintext`.
pub uninterp spec fn aes256_cbc_encrypt_of(key: Seq<u8>, iv: Seq<u8>, plaintext: Seq<u8>) -> Seq<u8>;

/// What AES-256-CBC decryption with PKCS#7 unpadding makes of `ciphertext`:
/// `None` where the input length or the padding is malformed.
pub uninterp spec fn aes256_cbc_decrypt_of(
    key: Seq<u8>,
    iv: Seq<u8>,
    ciphertext: Seq<u8>,
) -> Option<Seq<u8>>;

/// Lower-case hexadecimal text of a byte sequence, high nibble first.
pub open spec fn hex_lower(bytes: Seq<u8>) -> Seq<char>
    decreases bytes.len(),
{
    if bytes.len() == 0 {
        Seq::empty()
    } else {
        seq![hex_digit((bytes[0] / 16) as nat), hex_digit((bytes[0] % 16) as nat)] + hex_lower(
            bytes.drop_first(),
        )
    }
}

/// `c` is a lower-case hexadecimal digit: `0`-`9` or `a`-`f`.
pub open spec fn is_lower_hex_digit(c: char) -> bool {
    ('0' <= c && c <= '9') || ('a' <= c && c <= 'f')
}

/// Lower-case hex text has two digits per byte, each a lower-case hex digit.
pub proof fn lemma_hex_lower_shape(bytes: Seq<u8>)
    ensures
        hex_lower(bytes).len() == 2 * bytes.len(),
        forall|i: int| 0 <= i < hex_lower(bytes).len() ==> is_lower_hex_digit(
            #[trigger] hex_lower(bytes)[i],
        ),
    decreases bytes.len(),
{
    if bytes.len() > 0 {
        lemma_hex_lower_shape(bytes.drop_first());
        let hi = (bytes[0] / 16) as nat;
        let lo = (bytes[0] % 16) as nat;
        assert(is_lower_hex_digit(hex_digit(hi)));
        assert(is_lower_hex_digit(hex_digit(lo)));
        let h = hex_lower(bytes);
        let rest = hex_lower(bytes.drop_first());
        assert forall|i: int| 0 <= i < h.len() implies is_lower_hex_digit(#[trigger] h[i]) by {
            if i >= 2 {
                assert(h[i] == rest[i - 2]);
            }
        }
    }
}

/// The character of the standard base64 alphabet for a value below 64.
pub open spec fn base64_char(v: nat) -> char {
    if v < 26 {
        ((v + 65) as u8) as char
    } else if v < 52 {
        ((v + 71) as u8) as char
    } else if v < 62 {
        ((v - 4) as u8) as char
    } else if v == 62 {
        '+'
    } else {
        '/'
    }
}

/// Standard base64 (RFC 4648 alphabet) with `=` padding: each group of
/// three bytes becomes four characters; a final group of one or two bytes
/// becomes two or three characters and is padded to four.
pub open spec fn base64_encode_of(b: Seq<u8>) -> Seq<char>
    decreases b.len(),
{
    if b.len() == 0 {
        Seq::empty()
    } else if b.len() == 1 {
        seq![base64_char((b[0] / 4) as nat), base64_char(((b[0] % 4) * 16) as nat), '=', '=']
    } else if b.len() == 2 {
        seq![
            base64_char((b[0] / 4) as nat),
            base64_char(((b[0] % 4) * 16 + b[1] / 16) as nat),
            base64_char(((b[1] % 16) * 4) as nat),
            '=',
        ]
    } else {
        seq![
            base64_char((b[0] / 4) as nat),
            base64_char(((b[0] % 4) * 16 + b[1] / 16) as nat),
            base64_char(((b[1] % 16) * 4 + b[2] / 64) as nat),
            base64_char((b[2] % 64) as nat),
        ] + base64_encode_of(b.subrange(3, b.len() as int))
    }
}

/// HMAC with SHA-256 (`hmac::Hmac<sha2::Sha256>`): `new_from_slice`, one
/// `update`, `finalize`. HMAC accepts a key of any length (the crate's
/// `new_from_slice` always returns `Ok`), and SHA-256 output is 32 bytes.
#[verifier::external_body]
pub(crate) fn hmac_sha256(key: &[u8], msg: &[u8]) -> (r: Option<Vec<u8>>)
    ensures
        r is Some,
        r->Some_0@ == hmac_sha256_of(key@, msg@),
        r->Some_0@.len() == 32,
{
    match hmac::Hmac::<sha2::Sha256>::new_from_slice(key) {
        Ok(mut mac) => {
            mac.update(msg);
            Some(mac.finalize().into_bytes().to_vec())
        },
        Err(_) => None,
    }
}

/// SHA-256 digest of `data` (`sha2::Sha256::digest`), 32 bytes.
#[verifier::external_body]
pub(crate) fn sha256(data: &[u8]) -> (r: Vec<u8>)
    ensures
        r@ == sha256_of(data@),
        r@.len() == 32,
{
    sha2::Sha256::digest(data).to_vec()
}

/// MD5 digest of `data` (`md5::compute`) written with the digest's
/// `LowerHex` format, which writes each of its 16 bytes as `{:02x}`.
#[verifier::external_body]
pub(crate) fn md5_hex(data: &[u8]) -> (r: String)
    ensures
        r@.len() == 32,
        r@ == hex_lower(md5_of(data@)),
{
    format!("{:x}", md5::compute(data))
}

/// `hex::encode`: two lower-case hex digits per byte, high nibble first
/// (the crate's `HEX_CHARS_LOWER` table).
#[verifier::external_body]
pub(crate) fn hex_encode(data: &[u8]) -> (r: String)
    ensures
        r@ == hex_lower(data@),
{
    hex::encode(data)
}

/// `base64::engine::general_purpose::STANDARD.encode`: the standard
/// alphabet with padding. The crate panics when the output length would
/// overflow `usize`, which the bound on the input rules out.
#[verifier::external_body]
pub(crate) fn base64_encode(data: &[u8]) -> (r: String)
    requires
        data@.len() <= usize::MAX / 2,
    ensures
        r@ == base64_encode_of(data@),
{
    base64::engine::general_purpose::STANDARD.encode(data)
}

/// `base64::engine::general_purpose::STANDARD.decode`. Its configuration
/// requires canonical padding and rejects non-zero trailing bits, so it
/// accepts exactly the texts that `encode` produces and gives back the bytes
/// they encode; the error is converted to its display text.
#[verifier::external_body]
pub(crate) fn base64_decode(s: &str) -> (r: Result<Vec<u8>, String>)
    ensures
        r is Ok ==> base64_encode_of(r->Ok_0@) == s@,
        forall|b: Seq<u8>| #[trigger] base64_encode_of(b) == s@ ==> r is Ok && r->Ok_0@ == b,
{
    match base64::engine::general_purpose::STANDARD.decode(s) {
        Ok(v) => Ok(v),
        Err(e) => Err(e.to_string()),
    }
}

/// AES-256-CBC encryption with PKCS#7 padding (`cbc::Encryptor<aes::Aes256>`,
/// `encrypt_padded_vec_mut::<Pkcs7>`), which allocates one block more than
/// the whole blocks of the plaintext and always succeeds. The ciphertext is
/// the plaintext padded to the next multiple of 16 bytes. Key and IV are
/// converted to fixed-size arrays, which panics unless they are 32 and 16
/// bytes long; the bound on the plaintext keeps the allocation size in range.
#[verifier::external_body]
pub(crate) fn aes256_cbc_encrypt(key: &[u8], iv: &[u8], plaintext: &[u8]) -> (r: Vec<u8>)
    requires
        key@.len() == 32,
        iv@.len() == 16,
        plaintext@.len() + 16 <= usize::MAX,
    ensures
        r@ == aes256_cbc_encrypt_of(key@, iv@, plaintext@),
        r@.len() == (plaintext@.len() / 16 + 1) * 16,
{
    cbc::Encryptor::<aes::Aes256>::new(key.into(), iv.into()).encrypt_padded_vec_mut::<Pkcs7>(
        plaintext,
    )
}

/// AES-256-CBC decryption with PKCS#7 unpadding (`cbc::Decryptor<aes::Aes256>`,
/// `decrypt_padded_vec_mut::<Pkcs7>`); it inverts `aes256_cbc_encrypt` under
/// the same key and IV, as the crates document. The error is converted to
/// its display text. Key and IV must be 32 and 16 bytes long, as above.
#[verifier::external_body]
pub(crate) fn aes256_cbc_decrypt(key: &[u8], iv: &[u8], ciphertext: &[u8]) -> (r: Result<
    Vec<u8>,
    String,
>)
    requires
        key@.len() == 32,
        iv@.len() == 16,
    ensures
        r is Ok <==> aes256_cbc_decrypt_of(key@, iv@, ciphertext@) is Some,
        r is Ok ==> r->Ok_0@ == aes256_cbc_decrypt_of(key@, iv@, ciphertext@)->Some_0,
        forall|p: Seq<u8>| #[trigger]
            aes256_cbc_encrypt_of(key@, iv@, p) == ciphertext@ ==> r is Ok && r->Ok_0@ == p,
{
    match cbc::Decryptor::<aes::Aes256>::new(key.into(), iv.into()).decrypt_padded_vec_mut::<Pkcs7>(
        ciphertext,
    ) {
        Ok(p) => Ok(p),
        Err(e) => Err(e.to_string()),
    }
}

/// Sixteen random bytes from `rand::thread_rng()`; nothing is known of
/// their values.
#[verifier::external_body]
pub(crate) fn random_iv() -> (r: Vec<u8>)
    ensures
        r@.len() == 16,
{
    rand::thread_rng().gen::<[u8; 16]>().to_vec()
}

} // verus!
