//! The block cipher of the installer channel: AES with a key of 256 bits in
//! CBC mode, as the OpenSSL library computes it.

use vstd::prelude::*;

verus! {

/// The length of a key of the cipher, in bytes.
pub const KEY_LENGTH: usize = 32;

/// The length of an initialization value of the cipher, in bytes.
pub const BLOCK_LENGTH: usize = 16;

/// The most bytes that the cipher takes in one call: with one block more,
/// which the result may need, the length still fits the C int of the
/// library.
pub const MAX_INPUT: usize = 0x7fff_ffef;

/// What AES-256 in CBC mode with padding makes of `data` under `key` and
/// `iv`.
pub uninterp spec fn aes_256_cbc_encrypted(key: Seq<u8>, iv: Seq<u8>, data: Seq<u8>) -> Seq<u8>;

/// What AES-256 in CBC mode with padding recovers from `data` under `key`
/// and `iv`.
pub uninterp spec fn aes_256_cbc_decrypted(key: Seq<u8>, iv: Seq<u8>, data: Seq<u8>) -> Seq<u8>;

/// The errors of the OpenSSL library.
#[verifier::external_type_specification]
#[verifier::external_body]
pub struct ExErrorStack(openssl::error::ErrorStack);

/// `openssl::symm::encrypt` with the cipher `Cipher::aes_256_cbc()`.
/// Trusted: where it succeeds, the result is the ciphertext of `data`, the
/// same for the same key, initialization value and data. Nothing is claimed
/// of when it fails.
#[verifier::external_body]
pub(crate) fn encrypt(key: &[u8], iv: &[u8], data: &[u8]) -> (r: Result<
    Vec<u8>,
    openssl::error::ErrorStack,
>)
    requires
        key@.len() == KEY_LENGTH,
        iv@.len() == BLOCK_LENGTH,
        data@.len() <= MAX_INPUT,
    ensures
        r matches Ok(out) ==> out@ == aes_256_cbc_encrypted(key@, iv@, data@),
{
    openssl::symm::encrypt(openssl::symm::Cipher::aes_256_cbc(), key, Some(iv), data)
}

/// `openssl::symm::decrypt` with the cipher `Cipher::aes_256_cbc()`.
/// Trusted: where it succeeds, the result is the plaintext of `data`, the
/// same for the same key, initialization value and data. Nothing is claimed
/// of when it fails.
#[verifier::external_body]
pub(crate) fn decrypt(key: &[u8], iv: &[u8], data: &[u8]) -> (r: Result<
    Vec<u8>,
    openssl::error::ErrorStack,
>)
    requires
        key@.len() == KEY_LENGTH,
        iv@.len() == BLOCK_LENGTH,
        data@.len() <= MAX_INPUT,
    ensures
        r matches Ok(out) ==> out@ == aes_256_cbc_decrypted(key@, iv@, data@),
{
    openssl::symm::decrypt(openssl::symm::Cipher::aes_256_cbc(), key, Some(iv), data)
}

} // verus!
