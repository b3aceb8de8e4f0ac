//! The vault: secret notes encrypted under a key derived from the user's
//! password, unlocked either by that password or by biometrics.
//!
//! The session key lives in memory only while the vault is unlocked; the
//! application keeps it and hands it to these functions. The salt and the
//! derived key are kept in the operating system's keychain behind
//! [`AuthProvider`].

use vstd::prelude::*;
use vstd::utf8::{decode_utf8, encode_utf8, valid_utf8};
use vstd::string::StringExecFns;
use rand::RngCore;
use crate::unlock::vault_key;
use crate::crypto::{
    aes256gcm_encrypt, decrypt, decryption, derive_key, encrypt, pbkdf2_hmac_sha256, CryptoKey,
    MAX_PLAINTEXT_LEN,
    NONCE_LEN, PBKDF2_ROUNDS, TAG_LEN,
};

verus! {

broadcast use
    vstd::utf8::encode_utf8_decode_utf8,
    vstd::utf8::encode_utf8_valid_utf8,
    vstd::utf8::decode_utf8_encode_utf8,
;

/// Access to the platform's biometric check and keychain.
pub trait AuthProvider: Send + Sync {
    /// Asks for a biometric check (Touch ID and the like); `true` on success.
    fn biometric_auth(&self, reason: &str) -> Result<bool, String>;

    /// Stores the vault key in the keychain.
    fn store_key(&self, key: &[u8]) -> Result<(), String>;

    /// Loads the vault key from the keychain.
    fn load_key(&self) -> Result<Vec<u8>, String>;

    /// Stores the key-derivation salt in the keychain.
    fn store_salt(&self, salt: &[u8]) -> Result<(), String>;

    /// Loads the key-derivation salt from the keychain.
    fn load_salt(&self) -> Result<Vec<u8>, String>;

    /// Stores the 32-byte key of the encrypted database file (not the vault key).
    fn store_db_key(&self, key: &[u8]) -> Result<(), String>;

    /// Loads the key of the encrypted database file.
    fn load_db_key(&self) -> Result<Vec<u8>, String>;
}

/// Error text while the vault is locked.
pub open spec fn locked_message() -> Seq<char> {
    "Vault가 잠겨있습니다"@
}

/// Error text for key material that is not 32 bytes long.
pub open spec fn key_size_message() -> Seq<char> {
    "키 크기 오류"@
}

/// The key that stored key bytes stand for, or the error text.
pub open spec fn key_from_bytes(bytes: Seq<u8>) -> Result<Seq<u8>, Seq<char>> {
    if bytes.len() == 32 {
        Ok(bytes)
    } else {
        Err(key_size_message())
    }
}

/// Turns key bytes into a key; they must be 32 bytes long.
pub fn make_crypto_key(bytes: &[u8]) -> (res: Result<CryptoKey, String>)
    ensures
        bytes@.len() == 32 <==> res is Ok,
        res matches Ok(k) ==> k@ == bytes@,
        res matches Err(e) ==> e@ == key_size_message(),
{
    if bytes.len() != 32 {
        return Err(String::from_str("키 크기 오류"));
    }
    let mut arr = [0u8; 32];
    let mut i: usize = 0;
    while i < 32
        invariant
            bytes@.len() == 32,
            0 <= i <= 32,
            forall|j: int| 0 <= j < i ==> arr@[j] == bytes@[j],
        decreases 32 - i,
    {
        arr[i] = bytes[i];
        i = i + 1;
    }
    assert(arr@ == bytes@);
    Ok(CryptoKey::from_bytes(&arr))
}

/// The key of the current session: an error while the vault is locked or when
/// the stored bytes are not a key.
pub fn session_crypto_key(session: Option<&[u8]>) -> (res: Result<CryptoKey, String>)
    ensures
        session is None ==> (res matches Err(e) && e@ == locked_message()),
        session matches Some(b) ==> match key_from_bytes(b@) {
            Ok(k) => res matches Ok(key) && key@ == k,
            Err(m) => res matches Err(e) && e@ == m,
        },
{
    match session {
        Some(bytes) => make_crypto_key(bytes),
        None => Err(String::from_str("Vault가 잠겨있습니다")),
    }
}

/// Derives the raw vault key bytes from a password and a salt.
pub fn derive_raw_key(password: &str, salt: &[u8]) -> (res: Vec<u8>)
    ensures
        res@ == pbkdf2_hmac_sha256(password@, salt@, PBKDF2_ROUNDS),
        res@.len() == 32,
{
    let key = derive_key(password, salt);
    let mut out: Vec<u8> = Vec::new();
    let mut i: usize = 0;
    while i < 32
        invariant
            0 <= i <= 32,
            out@ == key@.take(i as int),
        decreases 32 - i,
    {
        out.push(key[i]);
        i = i + 1;
        assert(out@ == key@.take(i as int));
    }
    assert(key@.take(32) == key@);
    out
}

/// 32 random bytes from `rand::thread_rng().fill_bytes`.
///
/// Trusted for nothing but the length, which the type fixes.
#[verifier::external_body]
pub(crate) fn random_bytes_32() -> (res: [u8; 32]) {
    let mut salt = [0u8; 32];
    rand::thread_rng().fill_bytes(&mut salt);
    salt
}

/// What setting up the vault has the application do next.
pub enum SetupAction {
    /// Store this salt in the keychain.
    StoreSalt(Vec<u8>),
    /// Store this key in the keychain.
    StoreKey(Vec<u8>),
    /// Setup is over: the session key, or the keychain's error.
    Done(Result<Vec<u8>, String>),
}

/// Where a setup stands.
pub enum SetupStage {
    /// The salt is being stored; `key` is derived from it.
    AwaitSaltStore { salt: Vec<u8>, key: Vec<u8> },
    /// The salt is stored; the key is being stored.
    AwaitKeyStore { salt: Vec<u8>, key: Vec<u8> },
    Finished,
}

/// Setting up a new vault, as a sequence of keychain writes: a random 32-byte
/// salt is drawn and the key derived from the password; the salt is stored,
/// then the key, and the key becomes the session key. A failed write ends the
/// setup with the keychain's error.
pub struct VaultSetup {
    pub password: String,
    pub stage: SetupStage,
}

/// A setup whose key is the one the password gives under its 32-byte salt.
pub open spec fn setup_wf(m: VaultSetup) -> bool {
    match m.stage {
        SetupStage::AwaitSaltStore { salt, key } => salt@.len() == 32 && key@ == vault_key(
            m.password@,
            salt@,
        ),
        SetupStage::AwaitKeyStore { salt, key } => salt@.len() == 32 && key@ == vault_key(
            m.password@,
            salt@,
        ),
        SetupStage::Finished => true,
    }
}

/// A setup for `password` has started: it stores the salt of its key first.
pub open spec fn setup_started(password: Seq<char>, r: (VaultSetup, SetupAction)) -> bool {
    &&& setup_wf(r.0)
    &&& r.0.password@ == password
    &&& r.0.stage matches SetupStage::AwaitSaltStore { salt, .. } && (r.1 matches SetupAction::StoreSalt(
        s,
    ) && s@ == salt@)
}

/// The next state and action that the outcome `stored` of the last keychain
/// write leads to from `m`: an error ends the setup with that error; after the
/// salt the key is stored; after the key the setup ends with it.
pub open spec fn setup_steps_to(
    m: VaultSetup,
    stored: Result<(), String>,
    r: (VaultSetup, SetupAction),
) -> bool {
    match m.stage {
        SetupStage::AwaitSaltStore { salt, key } => match stored {
            Err(e) => r.0.stage is Finished && (r.1 matches SetupAction::Done(Err(x)) && x@ == e@),
            Ok(_) => {
                &&& r.0.stage matches SetupStage::AwaitKeyStore { salt: s, key: k } && s@ == salt@
                    && k@ == key@
                &&& r.1 matches SetupAction::StoreKey(k) && k@ == key@
            },
        },
        SetupStage::AwaitKeyStore { key, .. } => match stored {
            Err(e) => r.0.stage is Finished && (r.1 matches SetupAction::Done(Err(x)) && x@ == e@),
            Ok(_) => r.0.stage is Finished && (r.1 matches SetupAction::Done(Ok(k)) && k@ == key@),
        },
        SetupStage::Finished => true,
    }
}

impl VaultSetup {
    /// Starts a setup: draws the salt, derives the key, and asks to store the salt.
    pub fn start(password: &str) -> (res: (VaultSetup, SetupAction))
        ensures
            setup_started(password@, res),
    {
        let fresh = random_bytes_32();
        let key = derive_raw_key(password, &fresh);
        let mut salt: Vec<u8> = Vec::new();
        let mut i: usize = 0;
        while i < 32
            invariant
                0 <= i <= 32,
                salt@ == fresh@.take(i as int),
            decreases 32 - i,
        {
            salt.push(fresh[i]);
            i = i + 1;
            assert(salt@ == fresh@.take(i as int));
        }
        assert(fresh@.take(32) == fresh@);
        let copy = salt.clone();
        (
            VaultSetup {
                password: String::from_str(password),
                stage: SetupStage::AwaitSaltStore { salt, key },
            },
            SetupAction::StoreSalt(copy),
        )
    }

    /// Takes the outcome of the last keychain write and decides the next step.
    pub fn step(self, stored: Result<(), String>) -> (res: (VaultSetup, SetupAction))
        requires
            setup_wf(self),
            !(self.stage is Finished),
        ensures
            setup_wf(res.0),
            res.0.password@ == self.password@,
            setup_steps_to(self, stored, res),
    {
        let password = self.password;
        match self.stage {
            SetupStage::AwaitSaltStore { salt, key } => match stored {
                Err(e) => (VaultSetup { password, stage: SetupStage::Finished }, SetupAction::Done(Err(e))),
                Ok(()) => {
                    let copy = key.clone();
                    (
                        VaultSetup { password, stage: SetupStage::AwaitKeyStore { salt, key } },
                        SetupAction::StoreKey(copy),
                    )
                },
            },
            SetupStage::AwaitKeyStore { key, .. } => match stored {
                Err(e) => (VaultSetup { password, stage: SetupStage::Finished }, SetupAction::Done(Err(e))),
                Ok(()) => (VaultSetup { password, stage: SetupStage::Finished }, SetupAction::Done(Ok(key))),
            },
            SetupStage::Finished => (VaultSetup { password, stage: SetupStage::Finished }, SetupAction::Done(Err(String::new()))),
        }
    }
}

/// Law: a setup whose two keychain writes succeed stores a salt and then the
/// key of the password under exactly that salt, and ends with that key as the
/// session key.
pub proof fn lemma_setup_stores_matching_pair(
    password: Seq<char>,
    started: (VaultSetup, SetupAction),
    after_salt: (VaultSetup, SetupAction),
    after_key: (VaultSetup, SetupAction),
)
    requires
        setup_started(password, started),
        setup_steps_to(started.0, Ok(()), after_salt),
        setup_steps_to(after_salt.0, Ok(()), after_key),
    ensures
        started.1 matches SetupAction::StoreSalt(s) && {
            &&& s@.len() == 32
            &&& after_salt.1 matches SetupAction::StoreKey(k) && k@ == vault_key(password, s@)
            &&& after_key.1 matches SetupAction::Done(Ok(k)) && k@ == vault_key(password, s@)
        },
{
}

/// The text of the error that `String::from_utf8` reports (through
/// `FromUtf8Error`'s `Display`) for bytes that are not valid UTF-8.
pub uninterp spec fn from_utf8_error_text(bytes: Seq<u8>) -> Seq<char>;

/// What opening stored vault content under `key` gives: the text, or the
/// error text (that of the decryption, or that of the UTF-8 decoding).
pub open spec fn content_opening(key: Seq<u8>, data: Seq<u8>) -> Result<Seq<char>, Seq<char>> {
    match decryption(key, data) {
        Ok(bytes) => if valid_utf8(bytes) {
            Ok(decode_utf8(bytes))
        } else {
            Err(from_utf8_error_text(bytes))
        },
        Err(m) => Err(m),
    }
}

/// Decodes UTF-8 with `String::from_utf8`.
///
/// Trusted: std documents that it succeeds exactly for valid UTF-8 and then
/// holds the decoded text; the error text is the named one, which the
/// `Display` of `FromUtf8Error` writes from the bytes alone (the length and
/// position of the first invalid sequence).
#[verifier::external_body]
fn utf8_to_string(bytes: Vec<u8>) -> (res: Result<String, String>)
    ensures
        res is Ok <==> valid_utf8(bytes@),
        res matches Ok(s) ==> s@ == decode_utf8(bytes@),
        res matches Err(e) ==> e@ == from_utf8_error_text(bytes@),
{
    String::from_utf8(bytes).map_err(|e| e.to_string())
}

/// What sealing `content` gives with the session key `session`: the locked
/// error without a key, the key-size error for a malformed one, the AES-GCM
/// error for text over 2^36 bytes, and otherwise stored bytes that open to
/// `content` under the session key.
pub open spec fn sealing(
    session: Option<Seq<u8>>,
    content: Seq<char>,
    res: Result<Seq<u8>, Seq<char>>,
) -> bool {
    match session {
        None => res == Err::<Seq<u8>, Seq<char>>(locked_message()),
        Some(b) => if b.len() != 32 {
            res == Err::<Seq<u8>, Seq<char>>(key_size_message())
        } else if encode_utf8(content).len() > MAX_PLAINTEXT_LEN {
            res == Err::<Seq<u8>, Seq<char>>(crate::crypto::aead_error_message())
        } else {
            res matches Ok(data) && {
                &&& content_opening(b, data) == Ok::<Seq<char>, Seq<char>>(content)
                &&& decryption(b, data) == Ok::<Seq<u8>, Seq<char>>(encode_utf8(content))
                &&& data.len() == NONCE_LEN + encode_utf8(content).len() + TAG_LEN
                &&& aes256gcm_encrypt(b, data.take(NONCE_LEN as int), encode_utf8(content)) == Some(
                    data.skip(NONCE_LEN as int),
                )
            }
        },
    }
}

/// The view of a byte result.
pub open spec fn bytes_view(res: Result<Vec<u8>, String>) -> Result<Seq<u8>, Seq<char>> {
    match res {
        Ok(b) => Ok(b@),
        Err(e) => Err(e@),
    }
}

/// Encrypts the text of a vault item under the session key.
///
/// Fails while the vault is locked or when the session key is malformed;
/// otherwise the stored bytes open to `content` again under the same key.
pub fn seal_content(session: Option<&[u8]>, content: &str) -> (res: Result<Vec<u8>, String>)
    requires
        encode_utf8(content@).len() + NONCE_LEN + TAG_LEN <= usize::MAX,
    ensures
        sealing(
            match session {
                Some(b) => Some(b@),
                None => None,
            },
            content@,
            bytes_view(res),
        ),
{
    let key = match session_crypto_key(session) {
        Ok(k) => k,
        Err(e) => return Err(e),
    };
    let bytes = content.as_bytes();
    let sealed = encrypt(&key, bytes);
    proof {
        if sealed is Ok {
            let data = sealed->Ok_0;
            assert(decryption(key@, data@) == Ok::<Seq<u8>, Seq<char>>(encode_utf8(content@)));
        }
    }
    sealed
}

/// Decrypts stored vault content under `key` and reads it as UTF-8 text.
pub fn open_content(key: &CryptoKey, data: &[u8]) -> (res: Result<String, String>)
    ensures
        opened_view(res) == content_opening(key@, data@),
        res matches Ok(text) ==> decryption(key@, data@) == Ok::<Seq<u8>, Seq<char>>(
            encode_utf8(text@),
        ),
{
    let bytes = match decrypt(key, data) {
        Ok(b) => b,
        Err(e) => return Err(e),
    };
    utf8_to_string(bytes)
}

/// The view of what `open_content` gives.
pub open spec fn opened_view(res: Result<String, String>) -> Result<Seq<char>, Seq<char>> {
    match res {
        Ok(s) => Ok(s@),
        Err(e) => Err(e@),
    }
}

/// Law: vault content reads back as written. What `seal_content` stored for
/// `content` under the session key `session` is opened by `open_content`,
/// under the key that the same session bytes give (`session_crypto_key`), to
/// exactly `content`.
pub proof fn lemma_vault_content_round_trip(
    session: Seq<u8>,
    content: Seq<char>,
    stored: Seq<u8>,
    opened: Result<Seq<char>, Seq<char>>,
)
    requires
        sealing(Some(session), content, Ok(stored)),
        opened == content_opening(session, stored),
    ensures
        session.len() == 32,
        key_from_bytes(session) == Ok::<Seq<u8>, Seq<char>>(session),
        opened == Ok::<Seq<char>, Seq<char>>(content),
{
}

/// Law: nothing is sealed while the vault is locked; the locked error comes
/// back instead.
pub proof fn lemma_locked_vault_seals_nothing(content: Seq<char>, res: Result<Seq<u8>, Seq<char>>)
    requires
        sealing(None, content, res),
    ensures
        res == Err::<Seq<u8>, Seq<char>>(locked_message()),
{
}

/// Law: opening is decryption followed by UTF-8 decoding. Whatever text
/// stored data opens to is exactly what its AES-GCM plaintext encodes.
pub proof fn lemma_opening_is_decryption(key: Seq<u8>, data: Seq<u8>, text: Seq<char>)
    requires
        content_opening(key, data) == Ok::<Seq<char>, Seq<char>>(text),
    ensures
        decryption(key, data) == Ok::<Seq<u8>, Seq<char>>(encode_utf8(text)),
{
}

/// Law: data whose AES-GCM plaintext is the UTF-8 encoding of a text opens
/// to that text, whoever encrypted it.
pub proof fn lemma_encrypted_text_opens(key: Seq<u8>, data: Seq<u8>, text: Seq<char>)
    requires
        decryption(key, data) == Ok::<Seq<u8>, Seq<char>>(encode_utf8(text)),
    ensures
        content_opening(key, data) == Ok::<Seq<char>, Seq<char>>(text),
{
}

/// Law: sealing stores AES-GCM of the content's UTF-8 bytes themselves:
/// nonce, then the encryption of exactly those bytes under the session key.
pub proof fn lemma_sealing_is_encryption(session: Seq<u8>, content: Seq<char>, data: Seq<u8>)
    requires
        sealing(Some(session), content, Ok(data)),
    ensures
        aes256gcm_encrypt(session, data.take(NONCE_LEN as int), encode_utf8(content)) == Some(
            data.skip(NONCE_LEN as int),
        ),
        decryption(session, data) == Ok::<Seq<u8>, Seq<char>>(encode_utf8(content)),
{
}

} // verus!
