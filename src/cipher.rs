//! Password-based key stretching and authenticated encryption of byte
//! strings.

use vstd::prelude::*;

use aes_gcm::aead::Aead;
use aes_gcm::{AeadCore, Aes256Gcm, KeyInit};
use pbkdf2::pbkdf2_hmac;
use sha1::Sha1;

use crate::error::Error;

verus! {

/// Rounds of PBKDF2 used to stretch a password. Every sealed value of a
/// store depends on it: changing it makes earlier values unreadable.
pub const ROUNDS: u32 = 4096;

/// Length in bytes of an AES-GCM nonce.
pub const NONCE_LEN: usize = 12;

/// Length in bytes of the authentication tag that follows a ciphertext.
pub const TAG_LEN: usize = 16;

/// Largest plaintext that AES-GCM seals, in bytes.
pub const MAX_PLAINTEXT: u64 = 68719476736;

/// The key that PBKDF2 with HMAC-SHA1 makes of a password and a salt.
pub uninterp spec fn pbkdf2_sha1(password: Seq<u8>, salt: Seq<u8>, rounds: nat) -> Seq<u8>;

/// The ciphertext (tag included) that AES-256-GCM makes of a plaintext.
pub uninterp spec fn gcm_seal(key: Seq<u8>, nonce: Seq<u8>, plaintext: Seq<u8>) -> Seq<u8>;

/// The plaintext that AES-256-GCM recovers from a ciphertext, if its tag
/// authenticates.
pub uninterp spec fn gcm_open(key: Seq<u8>, nonce: Seq<u8>, ciphertext: Seq<u8>) -> Option<
    Seq<u8>,
>;

/// The key that a password and a salt give.
pub open spec fn key_for(password: Seq<u8>, salt: Seq<u8>) -> Seq<u8> {
    pbkdf2_sha1(password, salt, ROUNDS as nat)
}

/// The plaintext that `decrypt` recovers, if any.
pub open spec fn opened(password: Seq<u8>, salt: Seq<u8>, nonce: Seq<u8>, data: Seq<u8>) -> Option<
    Seq<u8>,
> {
    if nonce.len() == NONCE_LEN {
        gcm_open(key_for(password, salt), nonce, data)
    } else {
        None
    }
}

/// Relies on pbkdf2::pbkdf2_hmac with sha1::Sha1: fills a 32-byte key from
/// the password, the salt and the round count alone.
#[verifier::external_body]
fn stretch(password: &[u8], salt: &[u8], rounds: u32) -> (r: [u8; 32])
    ensures
        r@ == pbkdf2_sha1(password@, salt@, rounds as nat),
{
    let mut key = [0u8; 32];
    pbkdf2_hmac::<Sha1>(password, salt, rounds, &mut key);
    key
}

/// Relies on aes_gcm::AeadCore::generate_nonce over the operating
/// system's generator: a fresh nonce of 12 random bytes.
#[verifier::external_body]
fn random_nonce() -> (r: Vec<u8>)
    ensures
        r@.len() == NONCE_LEN,
{
    Aes256Gcm::generate_nonce(&mut aes_gcm::aead::OsRng).to_vec()
}

/// Relies on aes_gcm's Aead::encrypt for Aes256Gcm, without associated
/// data: it fails only on a plaintext over 2^36 bytes, appends the 16-byte
/// tag, and Aead::decrypt under the same key and nonce gives the plaintext
/// back.
#[verifier::external_body]
fn gcm_encrypt(key: &[u8; 32], nonce: &[u8], data: &[u8]) -> (r: Option<Vec<u8>>)
    requires
        nonce@.len() == NONCE_LEN,
    ensures
        r is Some <==> data@.len() <= MAX_PLAINTEXT,
        r matches Some(c) ==> c@ == gcm_seal(key@, nonce@, data@) && c@.len() == data@.len()
            + TAG_LEN && gcm_open(key@, nonce@, c@) == Some(data@),
{
    let cipher = Aes256Gcm::new(aes_gcm::Key::<Aes256Gcm>::from_slice(key));
    cipher.encrypt(aes_gcm::Nonce::from_slice(nonce), data).ok()
}

/// Relies on aes_gcm's Aead::decrypt for Aes256Gcm, without associated
/// data: the plaintext when the tag authenticates, else an error.
#[verifier::external_body]
fn gcm_decrypt(key: &[u8; 32], nonce: &[u8], data: &[u8]) -> (r: Option<Vec<u8>>)
    requires
        nonce@.len() == NONCE_LEN,
    ensures
        match r {
            Some(p) => gcm_open(key@, nonce@, data@) == Some(p@),
            None => gcm_open(key@, nonce@, data@) is None,
        },
{
    let cipher = Aes256Gcm::new(aes_gcm::Key::<Aes256Gcm>::from_slice(key));
    cipher.decrypt(aes_gcm::Nonce::from_slice(nonce), data).ok()
}

/// The key that a password and a salt give under `rounds` rounds.
pub open spec fn key_with(password: Seq<u8>, salt: Seq<u8>, rounds: nat) -> Seq<u8> {
    pbkdf2_sha1(password, salt, rounds)
}

/// The plaintext that `decrypt_with` recovers under `rounds` rounds, if any.
pub open spec fn opened_with(
    password: Seq<u8>,
    salt: Seq<u8>,
    nonce: Seq<u8>,
    data: Seq<u8>,
    rounds: nat,
) -> Option<Seq<u8>> {
    if nonce.len() == NONCE_LEN {
        gcm_open(key_with(password, salt, rounds), nonce, data)
    } else {
        None
    }
}

/// Seals `data` under the key stretched from `password` and `salt` in
/// `rounds` rounds, with a fresh random nonce. Returns the ciphertext, tag
/// included, and the nonce.
pub fn encrypt_with(password: &[u8], salt: &[u8], data: &[u8], rounds: u32) -> (r: Result<
    (Vec<u8>, Vec<u8>),
    Error,
>)
    ensures
        r is Ok <==> data@.len() <= MAX_PLAINTEXT,
        match r {
            Ok((c, n)) => n@.len() == NONCE_LEN && c@ == gcm_seal(
                key_with(password@, salt@, rounds as nat),
                n@,
                data@,
            ) && c@.len() == data@.len() + TAG_LEN && opened_with(
                password@,
                salt@,
                n@,
                c@,
                rounds as nat,
            ) == Some(data@),
            Err(e) => e is BadPassword,
        },
{
    let key = stretch(password, salt, rounds);
    let nonce = random_nonce();
    match gcm_encrypt(&key, nonce.as_slice(), data) {
        Some(c) => Ok((c, nonce)),
        None => Err(Error::BadPassword),
    }
}

/// Unseals `data` with the key stretched from `password` and `salt` in
/// `rounds` rounds. Any failure, a wrong password, a wrong nonce or a
/// damaged ciphertext, is `BadPassword`.
pub fn decrypt_with(password: &[u8], salt: &[u8], nonce: &[u8], data: &[u8], rounds: u32) -> (r:
    Result<Vec<u8>, Error>)
    ensures
        match r {
            Ok(p) => opened_with(password@, salt@, nonce@, data@, rounds as nat) == Some(p@),
            Err(e) => e is BadPassword && opened_with(password@, salt@, nonce@, data@, rounds as nat)
                is None,
        },
{
    if nonce.len() != NONCE_LEN {
        return Err(Error::BadPassword);
    }
    let key = stretch(password, salt, rounds);
    match gcm_decrypt(&key, nonce, data) {
        Some(p) => Ok(p),
        None => Err(Error::BadPassword),
    }
}

/// `encrypt_with` at the store's round count.
pub fn encrypt(password: &[u8], salt: &[u8], data: &[u8]) -> (r: Result<(Vec<u8>, Vec<u8>), Error>)
    ensures
        r is Ok <==> data@.len() <= MAX_PLAINTEXT,
        match r {
            Ok((c, n)) => n@.len() == NONCE_LEN && c@ == gcm_seal(key_for(password@, salt@), n@, data@)
                && c@.len() == data@.len() + TAG_LEN && opened(password@, salt@, n@, c@) == Some(data@),
            Err(e) => e is BadPassword,
        },
{
    encrypt_with(password, salt, data, ROUNDS)
}

/// `decrypt_with` at the store's round count.
pub fn decrypt(password: &[u8], salt: &[u8], nonce: &[u8], data: &[u8]) -> (r: Result<Vec<u8>, Error>)
    ensures
        match r {
            Ok(p) => opened(password@, salt@, nonce@, data@) == Some(p@),
            Err(e) => e is BadPassword && opened(password@, salt@, nonce@, data@) is None,
        },
{
    decrypt_with(password, salt, nonce, data, ROUNDS)
}

} // verus!
