//! Encryption of stored secrets with AES-256-GCM under a key derived by SHA-256.
use vstd::prelude::*;
use vstd::utf8::{decode_utf8, encode_utf8, valid_utf8};
use crate::errors::{Result, TelegramCliError, is_message_error};
use aes_gcm::aead::rand_core::RngCore;
use aes_gcm::aead::{Aead, KeyInit, OsRng};
use sha2::Digest;

verus! {

/// What `Sha256::digest` returns for a message.
pub uninterp spec fn spec_sha256(message: Seq<u8>) -> Seq<u8>;

/// What AES-256-GCM encryption with an empty associated data returns for a
/// key, nonce and plaintext: the ciphertext followed by the tag.
pub uninterp spec fn spec_aes_gcm_seal(key: Seq<u8>, nonce: Seq<u8>, plaintext: Seq<u8>) -> Seq<u8>;

/// What AES-256-GCM decryption with an empty associated data returns for a
/// key, nonce and sealed text: the plaintext, or nothing when the tag fails.
pub uninterp spec fn spec_aes_gcm_open(key: Seq<u8>, nonce: Seq<u8>, sealed: Seq<u8>) -> Option<Seq<u8>>;

/// The largest plaintext AES-GCM accepts, in bytes.
pub open spec fn aes_gcm_max_plaintext() -> nat {
    0x10_0000_0000
}

/// Hashes with `sha2::Sha256::digest`; the 32-byte digest is the named
/// function of the message.
#[verifier::external_body]
fn sha256_digest(message: &[u8]) -> (r: [u8; 32])
    ensures
        r@ == spec_sha256(message@),
{
    let digest = sha2::Sha256::digest(message);
    let mut out = [0u8; 32];
    out.copy_from_slice(&digest);
    out
}

/// Twelve bytes from the operating system's random source (`OsRng::fill_bytes`);
/// nothing is promised of their value.
#[verifier::external_body]
fn random_nonce() -> (r: [u8; 12]) {
    let mut nonce = [0u8; 12];
    OsRng.fill_bytes(&mut nonce);
    nonce
}

/// Encrypts with `Aes256Gcm::encrypt` and no associated data. The crate refuses
/// plaintexts longer than 2^36 bytes and accepts every other; the result is the
/// named function of key, nonce and plaintext: the ciphertext, as long as the
/// plaintext, followed by the 16-byte tag. Decrypting it under the same key and
/// nonce gives the plaintext back.
#[verifier::external_body]
fn aes_gcm_seal(key: &[u8; 32], nonce: &[u8; 12], plaintext: &[u8]) -> (r: Option<Vec<u8>>)
    ensures
        plaintext@.len() <= aes_gcm_max_plaintext() <==> r is Some,
        r is Some ==> r->0@ == spec_aes_gcm_seal(key@, nonce@, plaintext@),
        r is Some ==> r->0@.len() == plaintext@.len() + 16,
        r is Some ==> spec_aes_gcm_open(key@, nonce@, r->0@) == Some(plaintext@),
{
    let cipher = aes_gcm::Aes256Gcm::new(key.into());
    cipher.encrypt(aes_gcm::Nonce::from_slice(nonce), plaintext).ok()
}

/// Decrypts with `Aes256Gcm::decrypt` and no associated data; the result is the
/// named function of key, nonce and sealed text.
#[verifier::external_body]
fn aes_gcm_open(key: &[u8; 32], nonce: &[u8], sealed: &[u8]) -> (r: Option<Vec<u8>>)
    requires
        nonce@.len() == 12,
    ensures
        match spec_aes_gcm_open(key@, nonce@, sealed@) {
            Some(p) => r is Some && r->0@ == p,
            None => r is None,
        },
{
    let cipher = aes_gcm::Aes256Gcm::new(key.into());
    cipher.decrypt(aes_gcm::Nonce::from_slice(nonce), sealed).ok()
}

/// Decodes UTF-8 with `String::from_utf8`: the text when the bytes are valid
/// UTF-8, nothing otherwise.
#[verifier::external_body]
fn string_from_utf8(bytes: Vec<u8>) -> (r: Option<String>)
    ensures
        valid_utf8(bytes@) ==> r is Some && r->0@ == decode_utf8(bytes@),
        !valid_utf8(bytes@) ==> r is None,
{
    String::from_utf8(bytes).ok()
}

/// A nonce and the sealed text it was encrypted with.
#[derive(Debug, Clone)]
pub struct EncryptedValue {
    pub nonce: Vec<u8>,
    pub ciphertext: Vec<u8>,
}

/// Encrypts and decrypts secrets under one key.
#[derive(Debug, Clone)]
pub struct SecretStore {
    key: [u8; 32],
}

impl SecretStore {
    /// The key the store encrypts with.
    pub closed spec fn key(&self) -> Seq<u8> {
        self.key@
    }

    /// A store whose key is the SHA-256 digest of the key material.
    pub fn from_key_material(material: &[u8]) -> (r: SecretStore)
        ensures
            r.key() == spec_sha256(material@),
    {
        SecretStore { key: sha256_digest(material) }
    }

    /// Encrypts bytes under a fresh random nonce; refused only for plaintexts
    /// longer than AES-GCM allows.
    pub fn encrypt_bytes(&self, value: &[u8]) -> (r: Result<EncryptedValue>)
        ensures
            value@.len() <= aes_gcm_max_plaintext() ==> r is Ok && r->Ok_0.nonce@.len() == 12
                && r->Ok_0.ciphertext@ == spec_aes_gcm_seal(self.key(), r->Ok_0.nonce@, value@)
                && r->Ok_0.ciphertext@.len() == value@.len() + 16
                && spec_aes_gcm_open(self.key(), r->Ok_0.nonce@, r->Ok_0.ciphertext@) == Some(value@),
            value@.len() > aes_gcm_max_plaintext() ==> r is Err && is_message_error(
                r->Err_0,
                "failed to encrypt secret"@,
            ),
    {
        let nonce = random_nonce();
        match aes_gcm_seal(&self.key, &nonce, value) {
            Some(ciphertext) => {
                let mut n: Vec<u8> = Vec::new();
                let mut i: usize = 0;
                while i < 12
                    invariant
                        i <= 12,
                        n@ == nonce@.subrange(0, i as int),
                    decreases 12 - i,
                {
                    n.push(nonce[i]);
                    i = i + 1;
                    assert(n@ =~= nonce@.subrange(0, i as int));
                }
                assert(n@ =~= nonce@);
                Ok(EncryptedValue { nonce: n, ciphertext })
            },
            None => Err(TelegramCliError::message("failed to encrypt secret")),
        }
    }

    /// Decrypts an encrypted value; refused when its tag does not verify.
    pub fn decrypt_bytes(&self, value: &EncryptedValue) -> (r: Result<Vec<u8>>)
        requires
            value.nonce@.len() == 12,
        ensures
            match spec_aes_gcm_open(self.key(), value.nonce@, value.ciphertext@) {
                Some(p) => r is Ok && r->Ok_0@ == p,
                None => r is Err && is_message_error(r->Err_0, "failed to decrypt secret"@),
            },
    {
        match aes_gcm_open(&self.key, value.nonce.as_slice(), value.ciphertext.as_slice()) {
            Some(p) => Ok(p),
            None => Err(TelegramCliError::message("failed to decrypt secret")),
        }
    }

    /// Encrypts a text's UTF-8 bytes, or passes an absent value through.
    pub fn encrypt_optional(&self, value: Option<&str>) -> (r: Result<Option<EncryptedValue>>)
        ensures
            value is None ==> r is Ok && r->Ok_0 is None,
            value is Some && encode_utf8(value->0@).len() <= aes_gcm_max_plaintext() ==> r is Ok && r->Ok_0 is Some
                && r->Ok_0->0.nonce@.len() == 12
                && r->Ok_0->0.ciphertext@ == spec_aes_gcm_seal(self.key(), r->Ok_0->0.nonce@, encode_utf8(value->0@))
                && r->Ok_0->0.ciphertext@.len() == encode_utf8(value->0@).len() + 16
                && spec_aes_gcm_open(self.key(), r->Ok_0->0.nonce@, r->Ok_0->0.ciphertext@) == Some(encode_utf8(value->0@)),
            value is Some && encode_utf8(value->0@).len() > aes_gcm_max_plaintext() ==> r is Err && is_message_error(
                r->Err_0,
                "failed to encrypt secret"@,
            ),
    {
        match value {
            None => Ok(None),
            Some(v) => {
                let bytes = v.as_bytes();
                let e = self.encrypt_bytes(bytes)?;
                Ok(Some(e))
            },
        }
    }

    /// Decrypts a value and decodes it as UTF-8, or passes an absent value through.
    pub fn decrypt_optional(&self, value: Option<&EncryptedValue>) -> (r: Result<Option<String>>)
        requires
            value is Some ==> value->0.nonce@.len() == 12,
        ensures
            value is None ==> r is Ok && r->Ok_0 is None,
            value is Some ==> match spec_aes_gcm_open(self.key(), value->0.nonce@, value->0.ciphertext@) {
                Some(p) => if valid_utf8(p) {
                    r is Ok && r->Ok_0 is Some && r->Ok_0->0@ == decode_utf8(p)
                } else {
                    r is Err && is_message_error(r->Err_0, "secret is not valid utf-8"@)
                },
                None => r is Err && is_message_error(r->Err_0, "failed to decrypt secret"@),
            },
    {
        match value {
            None => Ok(None),
            Some(v) => {
                let bytes = self.decrypt_bytes(v)?;
                match string_from_utf8(bytes) {
                    Some(s) => Ok(Some(s)),
                    None => Err(TelegramCliError::message("secret is not valid utf-8")),
                }
            },
        }
    }
}

/// Law: a text that `encrypt_optional` encrypted (its sealed bytes open to the
/// text's UTF-8 encoding) is what `decrypt_optional` gives back: the opened
/// bytes are valid UTF-8 and decode to the same text.
pub proof fn law_text_roundtrip(store: SecretStore, text: Seq<char>, value: EncryptedValue)
    requires
        spec_aes_gcm_open(store.key(), value.nonce@, value.ciphertext@) == Some(encode_utf8(text)),
    ensures
        spec_aes_gcm_open(store.key(), value.nonce@, value.ciphertext@) matches Some(p) && valid_utf8(p)
            && decode_utf8(p) == text,
{
    vstd::utf8::encode_utf8_valid_utf8(text);
    vstd::utf8::encode_utf8_decode_utf8(text);
}

} // verus!
