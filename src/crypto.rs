use crate::codec::{hex_encode, hex_spec, hex_spec_len};
use ring::aead::{Aad, LessSafeKey, Nonce, UnboundKey, AES_256_GCM};
use ring::digest::{digest, SHA256};
use ring::pbkdf2::PBKDF2_HMAC_SHA256;
use std::num::NonZeroU32;
use vstd::prelude::*;
use vstd::string::StringSliceAdditionalSpecFns;
use zeroize::Zeroize;

verus! {

/// Length of the nonce that prefixes every sealed buffer.
pub const NONCE_LEN: usize = 12;

/// Length of the authentication tag that ends every sealed buffer.
pub const TAG_LEN: usize = 16;

/// The SHA-256 digest of a byte string.
pub uninterp spec fn sha256_of(data: Seq<u8>) -> Seq<u8>;

/// The 32 bytes of PBKDF2-HMAC-SHA256 over a secret, a salt and an iteration count.
pub uninterp spec fn pbkdf2_of(secret: Seq<u8>, salt: Seq<u8>, iterations: u32) -> Seq<u8>;

/// AES-256-GCM opening with empty associated data: the plaintext, or `None`
/// where the tag does not verify.
pub uninterp spec fn aes_gcm_open_of(key: Seq<u8>, nonce: Seq<u8>, sealed: Seq<u8>) -> Option<
    Seq<u8>,
>;

/// What a sealed buffer (nonce, then ciphertext and tag) opens to under a key.
pub open spec fn open_spec(key: Seq<u8>, buf: Seq<u8>) -> Option<Seq<u8>> {
    if buf.len() < NONCE_LEN {
        None
    } else {
        aes_gcm_open_of(key, buf.subrange(0, NONCE_LEN as int), buf.subrange(NONCE_LEN as int, buf.len() as int))
    }
}

/// The hex text that identifies a user without revealing the name.
pub open spec fn hashed_identifier(s: Seq<u8>) -> Seq<char> {
    hex_spec(sha256_of(s))
}

/// Relies on ring::digest::digest with SHA256, whose output is 32 bytes.
#[verifier::external_body]
fn sha256_digest(data: &[u8]) -> (r: Vec<u8>)
    ensures
        r@ == sha256_of(data@),
        r@.len() == 32,
{
    digest(&SHA256, data).as_ref().to_vec()
}

/// Relies on ring::pbkdf2::derive with PBKDF2_HMAC_SHA256 into a 32-byte output.
#[verifier::external_body]
fn pbkdf2_derive(secret: &[u8], salt: &[u8], iterations: u32) -> (r: [u8; 32])
    requires
        iterations != 0,
    ensures
        r@ == pbkdf2_of(secret@, salt@, iterations),
{
    let mut out = [0u8; 32];
    ring::pbkdf2::derive(PBKDF2_HMAC_SHA256, NonZeroU32::new(iterations).unwrap(), salt, secret, &mut out);
    out
}

/// Relies on ring::aead::LessSafeKey::open_in_place with AES_256_GCM and empty
/// associated data; on success the plaintext is the input without its 16-byte tag.
#[verifier::external_body]
fn aes_gcm_open(key: &[u8; 32], nonce: [u8; 12], sealed: &mut Vec<u8>) -> (r: bool)
    ensures
        r == aes_gcm_open_of(key@, nonce@, old(sealed)@) is Some,
        r ==> aes_gcm_open_of(key@, nonce@, old(sealed)@) == Some(final(sealed)@),
        r ==> final(sealed)@.len() + TAG_LEN == old(sealed)@.len(),
{
    let k = match UnboundKey::new(&AES_256_GCM, key) {
        Ok(k) => LessSafeKey::new(k),
        Err(_) => return false,
    };
    match k.open_in_place(Nonce::assume_unique_for_key(nonce), Aad::empty(), sealed) {
        Ok(plain) => {
            let n = plain.len();
            sealed.truncate(n);
            true
        },
        Err(_) => false,
    }
}

/// Relies on zeroize's impl for Vec<u8>: overwrites the bytes with zeros, then clears.
#[verifier::external_body]
pub(crate) fn wipe(buf: &mut Vec<u8>)
    ensures
        final(buf)@.len() == 0,
{
    buf.zeroize()
}

/// Relies on zeroize's impl for arrays: every byte becomes zero.
#[verifier::external_body]
pub(crate) fn wipe_key(key: &mut [u8; 32])
    ensures
        final(key)@ == Seq::new(32, |i: int| 0u8),
{
    key.zeroize()
}

/// SHA-256 of the text's UTF-8 bytes, as lowercase hex.
pub fn sha256(content: &str) -> (r: String)
    ensures
        r@ == hashed_identifier(content.spec_bytes()),
        r@.len() == 64,
{
    let d = sha256_digest(content.as_bytes());
    proof {
        hex_spec_len(d@);
    }
    hex_encode(d.as_slice())
}

/// PBKDF2-HMAC-SHA256 key derivation. A zero iteration count is a caller's error.
pub fn pbkdf2(password: &[u8], salt: &[u8], iterations: u32) -> (r: [u8; 32])
    requires
        iterations != 0,
    ensures
        r@ == pbkdf2_of(password@, salt@, iterations),
{
    pbkdf2_derive(password, salt, iterations)
}

/// Key derivation is a function of its inputs: two derivations over the same
/// secret, salt and iteration count give the same 32 bytes.
pub proof fn derive_key_deterministic(
    secret: Seq<u8>,
    salt: Seq<u8>,
    iterations: u32,
    first: Seq<u8>,
    second: Seq<u8>,
)
    requires
        iterations != 0,
        first == pbkdf2_of(secret, salt, iterations),
        second == pbkdf2_of(secret, salt, iterations),
    ensures
        first == second,
{
}

/// The decryption failed: wrong key or corrupted data, which cannot be told apart.
#[derive(Debug, PartialEq, Eq, Clone, Copy)]
pub struct AuthenticationError;

/// An AES-256-GCM key for one-shot, in-place decryption.
pub struct Aes256Gcm {
    pub key: [u8; 32],
}

impl Aes256Gcm {
    pub fn new(key: [u8; 32]) -> (r: Self)
        ensures
            r.key == key,
    {
        Aes256Gcm { key }
    }

    /// Opens `encrypted` (a 12-byte nonce, the ciphertext, a 16-byte tag) in place.
    /// On success the buffer holds the plaintext alone: the nonce and the tag are
    /// dropped, so it is 28 bytes shorter. On failure it is wiped.
    pub fn decrypt(&self, encrypted: &mut Vec<u8>) -> (r: Result<(), AuthenticationError>)
        ensures
            r is Ok <==> open_spec(self.key@, old(encrypted)@) is Some,
            r is Ok ==> open_spec(self.key@, old(encrypted)@) == Some(final(encrypted)@),
            r is Ok ==> final(encrypted)@.len() + NONCE_LEN + TAG_LEN == old(encrypted)@.len(),
            r is Err ==> final(encrypted)@.len() == 0,
    {
        if encrypted.len() < NONCE_LEN {
            wipe(encrypted);
            return Err(AuthenticationError);
        }
        let ghost whole = encrypted@;
        let mut sealed = encrypted.split_off(NONCE_LEN);
        let nonce: [u8; 12] = [
            encrypted[0], encrypted[1], encrypted[2], encrypted[3], encrypted[4], encrypted[5],
            encrypted[6], encrypted[7], encrypted[8], encrypted[9], encrypted[10], encrypted[11],
        ];
        assert(nonce@ =~= whole.subrange(0, NONCE_LEN as int));
        assert(sealed@ =~= whole.subrange(NONCE_LEN as int, whole.len() as int));
        wipe(encrypted);
        if aes_gcm_open(&self.key, nonce, &mut sealed) {
            *encrypted = sealed;
            Ok(())
        } else {
            wipe(&mut sealed);
            Err(AuthenticationError)
        }
    }
}

} // verus!
