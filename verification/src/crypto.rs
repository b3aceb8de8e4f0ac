//! Encryption of vault contents: AES-256-GCM with a fresh random nonce per
//! message, and keys derived from a password with PBKDF2-HMAC-SHA256.
//!
//! An encrypted message is stored as `nonce (12 bytes) || ciphertext`, where
//! the ciphertext carries the 16-byte authentication tag at its end.

use vstd::prelude::*;
use vstd::string::StringExecFns;
use aes_gcm::aead::{Aead, AeadCore, KeyInit};

verus! {

/// Length of the nonce that opens every stored message.
pub const NONCE_LEN: usize = 12;

/// Length of the authentication tag that AES-GCM appends.
pub const TAG_LEN: usize = 16;

/// Longest plaintext that AES-GCM encrypts (2^36 bytes).
pub const MAX_PLAINTEXT_LEN: u64 = 68719476736;

/// PBKDF2 iteration count of the vault key derivation.
pub const PBKDF2_ROUNDS: u32 = 100_000;

/// What AES-GCM reports for any failure.
pub open spec fn aead_error_message() -> Seq<char> {
    "aead::Error"@
}

/// What decryption reports for data shorter than a nonce.
pub open spec fn too_short_message() -> Seq<char> {
    "데이터가 너무 짧음"@
}

/// A 256-bit AES key.
pub struct CryptoKey {
    bytes: [u8; 32],
}

impl View for CryptoKey {
    type V = Seq<u8>;

    closed spec fn view(&self) -> Seq<u8> {
        self.bytes@
    }
}

impl CryptoKey {
    /// Wraps 32 key bytes.
    pub fn from_bytes(bytes: &[u8; 32]) -> (res: Self)
        ensures
            res@ == bytes@,
    {
        CryptoKey { bytes: *bytes }
    }

    /// The key bytes.
    pub fn as_bytes(&self) -> (res: &[u8; 32])
        ensures
            res@ == self@,
    {
        &self.bytes
    }
}

/// The output of `aes_gcm::Aes256Gcm::encrypt` for a key, a nonce and a
/// plaintext, with no associated data.
pub uninterp spec fn aes256gcm_encrypt(key: Seq<u8>, nonce: Seq<u8>, plaintext: Seq<u8>) -> Option<Seq<u8>>;

/// The output of `aes_gcm::Aes256Gcm::decrypt` for a key, a nonce and a
/// ciphertext (message followed by tag), with no associated data.
pub uninterp spec fn aes256gcm_decrypt(key: Seq<u8>, nonce: Seq<u8>, ciphertext: Seq<u8>) -> Option<Seq<u8>>;

/// The 32 bytes that `pbkdf2::pbkdf2_hmac::<sha2::Sha256>` derives from the
/// UTF-8 bytes of a password, a salt and an iteration count.
pub uninterp spec fn pbkdf2_hmac_sha256(password: Seq<char>, salt: Seq<u8>, rounds: u32) -> Seq<u8>;

/// Encrypts with `Aes256Gcm::new(key).encrypt(nonce, plaintext)`.
///
/// Trusted: the result is the named one. The aes-gcm source fails only for
/// plaintexts longer than 2^36 bytes (`P_MAX`); otherwise it returns the
/// plaintext run through the keystream followed by a 16-byte tag, and
/// decrypting that output under the same key and nonce gives the plaintext
/// back (the keystream is applied again and the recomputed tag matches).
#[verifier::external_body]
fn aes_seal(key: &[u8; 32], nonce: &[u8; 12], plaintext: &[u8]) -> (res: Option<Vec<u8>>)
    ensures
        res is Some <==> aes256gcm_encrypt(key@, nonce@, plaintext@) is Some,
        res matches Some(c) ==> c@ == aes256gcm_encrypt(key@, nonce@, plaintext@)->0,
        res is Some <==> plaintext@.len() <= MAX_PLAINTEXT_LEN,
        res matches Some(c) ==> c@.len() == plaintext@.len() + TAG_LEN,
        res matches Some(c) ==> aes256gcm_decrypt(key@, nonce@, c@) == Some(plaintext@),
{
    let cipher = aes_gcm::Aes256Gcm::new(aes_gcm::Key::<aes_gcm::Aes256Gcm>::from_slice(key));
    cipher.encrypt(aes_gcm::Nonce::from_slice(nonce), plaintext).ok()
}

/// Decrypts with `Aes256Gcm::new(key).decrypt(nonce, ciphertext)`.
///
/// Trusted: the result is the named one; the aead source rejects a
/// ciphertext shorter than the tag, and a plaintext is the ciphertext minus
/// its tag in length.
#[verifier::external_body]
fn aes_open(key: &[u8; 32], nonce: &[u8], ciphertext: &[u8]) -> (res: Option<Vec<u8>>)
    requires
        nonce@.len() == NONCE_LEN,
    ensures
        res is Some <==> aes256gcm_decrypt(key@, nonce@, ciphertext@) is Some,
        res matches Some(p) ==> p@ == aes256gcm_decrypt(key@, nonce@, ciphertext@)->0,
        ciphertext@.len() < TAG_LEN ==> res is None,
        res matches Some(p) ==> p@.len() + TAG_LEN == ciphertext@.len(),
{
    let cipher = aes_gcm::Aes256Gcm::new(aes_gcm::Key::<aes_gcm::Aes256Gcm>::from_slice(key));
    cipher.decrypt(aes_gcm::Nonce::from_slice(nonce), ciphertext).ok()
}

/// A fresh nonce from `Aes256Gcm::generate_nonce(&mut OsRng)`.
///
/// Trusted for nothing but its type: the bytes come from the operating
/// system's random source.
#[verifier::external_body]
fn random_nonce() -> (res: [u8; 12]) {
    aes_gcm::Aes256Gcm::generate_nonce(&mut aes_gcm::aead::OsRng).into()
}

/// Fills a key with `pbkdf2::pbkdf2_hmac::<sha2::Sha256>`.
///
/// Trusted: the bytes are the named derivation; the pbkdf2 source never
/// fails with HMAC.
#[verifier::external_body]
fn pbkdf2_sha256(password: &str, salt: &[u8], rounds: u32) -> (res: [u8; 32])
    ensures
        res@ == pbkdf2_hmac_sha256(password@, salt@, rounds),
{
    let mut key = [0u8; 32];
    pbkdf2::pbkdf2_hmac::<sha2::Sha256>(password.as_bytes(), salt, rounds, &mut key);
    key
}

/// `a` followed by `b` in a new vector.
pub fn concat_bytes(a: &[u8], b: &[u8]) -> (res: Vec<u8>)
    requires
        a@.len() + b@.len() <= usize::MAX,
    ensures
        res@ == a@ + b@,
{
    let mut out: Vec<u8> = Vec::new();
    let mut i: usize = 0;
    while i < a.len()
        invariant
            0 <= i <= a@.len(),
            out@ == a@.take(i as int),
        decreases a@.len() - i,
    {
        out.push(a[i]);
        i = i + 1;
        assert(out@ == a@.take(i as int));
    }
    assert(a@.take(a@.len() as int) == a@);
    let mut j: usize = 0;
    while j < b.len()
        invariant
            0 <= j <= b@.len(),
            out@ == a@ + b@.take(j as int),
        decreases b@.len() - j,
    {
        out.push(b[j]);
        j = j + 1;
        assert(out@ == a@ + b@.take(j as int));
    }
    assert(b@.take(b@.len() as int) == b@);
    out
}

/// What decrypting stored `data` under `key` gives: the plaintext, or the
/// error text of the failure.
pub open spec fn decryption(key: Seq<u8>, data: Seq<u8>) -> Result<Seq<u8>, Seq<char>> {
    if data.len() < NONCE_LEN {
        Err(too_short_message())
    } else {
        match aes256gcm_decrypt(key, data.take(NONCE_LEN as int), data.skip(NONCE_LEN as int)) {
            Some(p) => Ok(p),
            None => Err(aead_error_message()),
        }
    }
}

/// Encrypts `content` under `key` with a fresh random nonce and returns
/// `nonce || ciphertext`, where the ciphertext (with its tag) is AES-256-GCM's
/// output for that key, nonce and content.
///
/// Encryption succeeds for every content up to 2^36 bytes, and decrypting
/// the result with the same key gives `content` back.
pub fn encrypt(key: &CryptoKey, content: &[u8]) -> (res: Result<Vec<u8>, String>)
    requires
        content@.len() + NONCE_LEN + TAG_LEN <= usize::MAX,
    ensures
        res is Ok <==> content@.len() <= MAX_PLAINTEXT_LEN,
        res matches Err(e) ==> e@ == aead_error_message(),
        res matches Ok(data) ==> {
            &&& data@.len() == NONCE_LEN + content@.len() + TAG_LEN
            &&& aes256gcm_encrypt(key@, data@.take(NONCE_LEN as int), content@) == Some(
                data@.skip(NONCE_LEN as int),
            )
            &&& decryption(key@, data@) == Ok::<Seq<u8>, Seq<char>>(content@)
        },
{
    let nonce = random_nonce();
    match aes_seal(&key.bytes, &nonce, content) {
        Some(ciphertext) => {
            let data = concat_bytes(&nonce, ciphertext.as_slice());
            proof {
                assert(data@.take(NONCE_LEN as int) == nonce@);
                assert(data@.skip(NONCE_LEN as int) == ciphertext@);
            }
            Ok(data)
        },
        None => Err(String::from_str("aead::Error")),
    }
}

/// Decrypts `nonce || ciphertext` under `key`.
///
/// Fails with a fixed message when the data is shorter than a nonce, and with
/// the AES-GCM error when authentication fails.
pub fn decrypt(key: &CryptoKey, data: &[u8]) -> (res: Result<Vec<u8>, String>)
    ensures
        res matches Ok(p) ==> decryption(key@, data@) == Ok::<Seq<u8>, Seq<char>>(p@),
        res matches Err(e) ==> decryption(key@, data@) == Err::<Seq<u8>, Seq<char>>(e@),
        res matches Ok(p) ==> p@.len() + NONCE_LEN + TAG_LEN == data@.len(),
        data@.len() < NONCE_LEN + TAG_LEN ==> res is Err,
{
    if data.len() < NONCE_LEN {
        return Err(String::from_str("데이터가 너무 짧음"));
    }
    let (nonce_bytes, ciphertext) = data.split_at(NONCE_LEN);
    assert(nonce_bytes@ == data@.take(NONCE_LEN as int));
    assert(ciphertext@ == data@.skip(NONCE_LEN as int));
    match aes_open(&key.bytes, nonce_bytes, ciphertext) {
        Some(p) => Ok(p),
        None => Err(String::from_str("aead::Error")),
    }
}

/// Derives a 32-byte key from a password and a salt with
/// PBKDF2-HMAC-SHA256 and 100,000 iterations.
pub fn derive_key(password: &str, salt: &[u8]) -> (res: [u8; 32])
    ensures
        res@ == pbkdf2_hmac_sha256(password@, salt@, PBKDF2_ROUNDS),
{
    pbkdf2_sha256(password, salt, PBKDF2_ROUNDS)
}

/// Law: what `encrypt` stores, `decrypt` gives back under the same key.
/// `encrypt` promises that its output decrypts to the content; `decrypt`
/// returns exactly the decryption of its input; so the pair is the identity.
pub proof fn lemma_decrypt_inverts_encrypt(
    key: Seq<u8>,
    content: Seq<u8>,
    stored: Seq<u8>,
    decrypted: Result<Seq<u8>, Seq<char>>,
)
    requires
        decryption(key, stored) == Ok::<Seq<u8>, Seq<char>>(content),
        decrypted == decryption(key, stored),
    ensures
        decrypted == Ok::<Seq<u8>, Seq<char>>(content),
{
}

/// Law: stored data is a 12-byte nonce followed by the AES-GCM ciphertext;
/// decrypting it is AES-GCM decryption of the rest under that nonce, and its
/// failure is the AES-GCM error.
pub proof fn lemma_decryption_splits_nonce(key: Seq<u8>, nonce: Seq<u8>, ciphertext: Seq<u8>)
    requires
        nonce.len() == NONCE_LEN,
    ensures
        decryption(key, nonce + ciphertext) == match aes256gcm_decrypt(key, nonce, ciphertext) {
            Some(p) => Ok::<Seq<u8>, Seq<char>>(p),
            None => Err::<Seq<u8>, Seq<char>>(aead_error_message()),
        },
{
    assert((nonce + ciphertext).take(NONCE_LEN as int) =~= nonce);
    assert((nonce + ciphertext).skip(NONCE_LEN as int) =~= ciphertext);
}

} // verus!
