//! Sealing the device token under a key made from the password.

use aes_gcm::aead::{Aead, OsRng};
use aes_gcm::{AeadCore, Aes256Gcm, Key, KeyInit, Nonce};
use vstd::prelude::*;
use vstd::slice::*;
use vstd::string::*;
use vstd::utf8::{decode_utf8, valid_utf8};

verus! {

/// The length of a key, in bytes.
pub const KEY_LEN: usize = 32;

/// The length of a nonce, in bytes.
pub const NONCE_LEN: usize = 12;

/// The longest plaintext that the cipher takes, in bytes.
pub const MAX_PLAINTEXT_LEN: u64 = 0x10_0000_0000;

/// `aes_gcm::Error`: the failure of the cipher, which tells nothing of its cause.
#[verifier::external_type_specification]
#[verifier::external_body]
pub struct ExAeadError(aes_gcm::Error);

/// What AES-256-GCM encryption under `key` and `nonce` makes of `plaintext`:
/// the ciphertext with its tag.
pub uninterp spec fn aes_gcm_sealed(key: Seq<u8>, nonce: Seq<u8>, plaintext: Seq<u8>) -> Seq<u8>;

/// What AES-256-GCM decryption under `key` and `nonce` makes of
/// `ciphertext`: the plaintext, or nothing where the tag does not fit.
pub uninterp spec fn aes_gcm_opened(key: Seq<u8>, nonce: Seq<u8>, ciphertext: Seq<u8>) -> Option<
    Seq<u8>,
>;

/// Calls `Aes256Gcm::generate_nonce` with the system's random source. The
/// contract claims only the length that the cipher's nonce type has.
#[verifier::external_body]
pub(crate) fn fresh_nonce() -> (r: Vec<u8>)
    ensures
        r@.len() == NONCE_LEN,
{
    Aes256Gcm::generate_nonce(&mut OsRng).to_vec()
}

/// Calls `Aes256Gcm::encrypt` without associated data. The contract names
/// the ciphertext and claims of it what the crate documents: encryption
/// fails only on a plaintext over the cipher's limit, and what it returns
/// decrypts under the same key and nonce to the plaintext.
#[verifier::external_body]
pub(crate) fn aes_gcm_encrypt(key: &[u8], nonce: &[u8], plaintext: &[u8]) -> (r: Result<
    Vec<u8>,
    aes_gcm::Error,
>)
    requires
        key@.len() == KEY_LEN,
        nonce@.len() == NONCE_LEN,
    ensures
        plaintext@.len() <= MAX_PLAINTEXT_LEN ==> r is Ok,
        r matches Ok(sealed) ==> sealed@ == aes_gcm_sealed(key@, nonce@, plaintext@)
            && aes_gcm_opened(key@, nonce@, sealed@) == Some(plaintext@),
{
    let cipher = Aes256Gcm::new(Key::<Aes256Gcm>::from_slice(key));
    cipher.encrypt(Nonce::from_slice(nonce), plaintext)
}

/// Calls `Aes256Gcm::decrypt` without associated data. The contract only
/// names what the crate computes.
#[verifier::external_body]
pub(crate) fn aes_gcm_decrypt(key: &[u8], nonce: &[u8], ciphertext: &[u8]) -> (r: Result<
    Vec<u8>,
    aes_gcm::Error,
>)
    requires
        key@.len() == KEY_LEN,
        nonce@.len() == NONCE_LEN,
    ensures
        match r {
            Ok(plaintext) => aes_gcm_opened(key@, nonce@, ciphertext@) == Some(plaintext@),
            Err(_) => aes_gcm_opened(key@, nonce@, ciphertext@) is None,
        },
{
    let cipher = Aes256Gcm::new(Key::<Aes256Gcm>::from_slice(key));
    cipher.decrypt(Nonce::from_slice(nonce), ciphertext)
}

/// `String::from_utf8` of std: the text that the bytes encode, where they are valid UTF-8.
#[verifier::external_body]
pub(crate) fn string_from_utf8(bytes: Vec<u8>) -> (r: Option<String>)
    ensures
        match r {
            Some(text) => valid_utf8(bytes@) && text@ == decode_utf8(bytes@),
            None => !valid_utf8(bytes@),
        },
{
    String::from_utf8(bytes).ok()
}

} // verus!
