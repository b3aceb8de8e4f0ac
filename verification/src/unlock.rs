//! Unlocking the vault, as a sequence of decisions between outside steps.
//!
//! Unlocking talks to the keychain and to the store of vault items in turn.
//! [`VaultUnlock`] holds where the sequence stands; the application performs
//! each [`UnlockAction`] and answers with the matching [`UnlockEvent`] until
//! the action is `Done`.
//!
//! Without a password the vault opens by biometrics and the key stored in the
//! keychain. With a password the key is derived from it and the stored salt,
//! and checked against the first vault item. A vault without a stored salt
//! predates random salts: once the password is confirmed, every item is
//! re-encrypted under a key from a new random salt, and the new salt and key
//! replace the keychain entries.

use vstd::prelude::*;
use vstd::string::StringExecFns;
use crate::crypto::{
    aead_error_message, decrypt, decryption, encrypt, pbkdf2_hmac_sha256, MAX_PLAINTEXT_LEN,
    PBKDF2_ROUNDS,
};
use crate::vault::{
    derive_raw_key, make_crypto_key, random_bytes_32, setup_started, setup_steps_to, SetupAction,
    VaultSetup,
};

verus! {

/// The reason shown by the biometric prompt of an unlock.
pub const BIOMETRIC_REASON: &'static str = "Shelf Vault 잠금 해제";

/// What the application does next.
pub enum UnlockAction {
    /// Ask the provider for a biometric check with [`BIOMETRIC_REASON`].
    Authenticate,
    /// Load the vault key from the keychain.
    LoadKey,
    /// Load the key-derivation salt from the keychain.
    LoadSalt,
    /// List the ids of all vault items, in the store's listing order.
    ListItems,
    /// Read the encrypted content of the item with this id.
    ReadContent(i64),
    /// Replace the encrypted content of the item with this id.
    WriteContent(i64, Vec<u8>),
    /// Store this salt in the keychain.
    StoreSalt(Vec<u8>),
    /// Store this key in the keychain.
    StoreKey(Vec<u8>),
    /// Unlocking is over: the session key, or the error to report.
    Done(Result<Vec<u8>, String>),
}

/// The outcome of the last action.
pub enum UnlockEvent {
    Authenticated(Result<bool, String>),
    KeyLoaded(Result<Vec<u8>, String>),
    SaltLoaded(Result<Vec<u8>, String>),
    Listed(Result<Vec<i64>, String>),
    ContentRead(Result<Vec<u8>, String>),
    ContentWritten(Result<(), String>),
    Stored(Result<(), String>),
}

/// Where an unlock stands.
pub enum UnlockStage {
    AwaitAuth,
    AwaitKey,
    AwaitSalt,
    /// Checking the derived key on the first vault item.
    AwaitCheckList { key: Vec<u8>, salt: Vec<u8>, legacy: bool },
    AwaitCheckRead { key: Vec<u8>, salt: Vec<u8>, legacy: bool },
    /// Re-storing the confirmed key; the outcome does not matter.
    AwaitKeyRefresh { key: Vec<u8>, salt: Vec<u8> },
    /// Re-encrypting every item from `old_key` to `new_key`.
    AwaitMigrationList { old_key: Vec<u8>, salt: Vec<u8>, new_key: Vec<u8> },
    AwaitMigrationRead { old_key: Vec<u8>, salt: Vec<u8>, new_key: Vec<u8>, ids: Vec<i64>, next: usize },
    AwaitMigrationWrite { old_key: Vec<u8>, salt: Vec<u8>, new_key: Vec<u8>, ids: Vec<i64>, next: usize },
    AwaitSaltStore { salt: Vec<u8>, new_key: Vec<u8> },
    AwaitKeyStore { salt: Vec<u8>, new_key: Vec<u8> },
    Finished,
}

/// An unlock in progress.
pub struct VaultUnlock {
    pub password: String,
    pub stage: UnlockStage,
}

/// The salt of vaults created before each vault got its own random salt.
pub open spec fn legacy_salt() -> Seq<u8> {
    vstd::utf8::encode_utf8("shelf-vault-salt-v1"@)
}

/// The vault key for a password and a salt.
pub open spec fn vault_key(password: Seq<char>, salt: Seq<u8>) -> Seq<u8> {
    pbkdf2_hmac_sha256(password, salt, PBKDF2_ROUNDS)
}

/// An unlock whose keys are the ones derived from its password and the salt
/// they go with, and whose migration position lies inside the listed items.
pub open spec fn unlock_wf(m: VaultUnlock) -> bool {
    let pw = m.password@;
    match m.stage {
        UnlockStage::AwaitCheckList { key, salt, .. } => key@ == vault_key(pw, salt@)
            && key@.len() == 32,
        UnlockStage::AwaitCheckRead { key, salt, .. } => key@ == vault_key(pw, salt@)
            && key@.len() == 32,
        UnlockStage::AwaitKeyRefresh { key, salt } => key@ == vault_key(pw, salt@),
        UnlockStage::AwaitMigrationList { old_key, salt, new_key } => old_key@.len() == 32
            && new_key@ == vault_key(pw, salt@) && new_key@.len() == 32 && salt@.len() == 32,
        UnlockStage::AwaitMigrationRead { old_key, salt, new_key, ids, next } => old_key@.len()
            == 32 && new_key@ == vault_key(pw, salt@) && new_key@.len() == 32 && salt@.len() == 32
            && next < ids@.len(),
        UnlockStage::AwaitMigrationWrite { old_key, salt, new_key, ids, next } => old_key@.len()
            == 32 && new_key@ == vault_key(pw, salt@) && new_key@.len() == 32 && salt@.len() == 32
            && next < ids@.len(),
        UnlockStage::AwaitSaltStore { salt, new_key } => new_key@ == vault_key(pw, salt@)
            && salt@.len() == 32,
        UnlockStage::AwaitKeyStore { salt, new_key } => new_key@ == vault_key(pw, salt@)
            && salt@.len() == 32,
        _ => true,
    }
}

/// The event answers the action that the unlock waits on.
pub open spec fn answers(m: VaultUnlock, e: UnlockEvent) -> bool {
    match m.stage {
        UnlockStage::AwaitAuth => e is Authenticated,
        UnlockStage::AwaitKey => e is KeyLoaded,
        UnlockStage::AwaitSalt => e is SaltLoaded,
        UnlockStage::AwaitCheckList { .. } => e is Listed,
        UnlockStage::AwaitCheckRead { .. } => e is ContentRead,
        UnlockStage::AwaitKeyRefresh { .. } => e is Stored,
        UnlockStage::AwaitMigrationList { .. } => e is Listed,
        UnlockStage::AwaitMigrationRead { .. } => e is ContentRead,
        UnlockStage::AwaitMigrationWrite { .. } => e is ContentWritten,
        UnlockStage::AwaitSaltStore { .. } => e is Stored,
        UnlockStage::AwaitKeyStore { .. } => e is Stored,
        UnlockStage::Finished => false,
    }
}

/// The unlock ends with this error text.
pub open spec fn fails_with(r: (VaultUnlock, UnlockAction), msg: Seq<char>) -> bool {
    r.0.stage is Finished && (r.1 matches UnlockAction::Done(Err(s)) && s@ == msg)
}

/// The unlock ends with this session key.
pub open spec fn succeeds_with(r: (VaultUnlock, UnlockAction), key: Seq<u8>) -> bool {
    r.0.stage is Finished && (r.1 matches UnlockAction::Done(Ok(k)) && k@ == key)
}

/// What follows a confirmed password `password` with derived key `key`: a
/// vault with its own salt re-stores the key; a legacy vault starts the
/// migration to a fresh 32-byte salt.
pub open spec fn after_check(
    password: Seq<char>,
    key: Seq<u8>,
    salt: Seq<u8>,
    legacy: bool,
    r: (VaultUnlock, UnlockAction),
) -> bool {
    if !legacy {
        &&& r.0.stage matches UnlockStage::AwaitKeyRefresh { key: k, salt: s } && k@ == key && s@ == salt
        &&& r.1 matches UnlockAction::StoreKey(k) && k@ == key
    } else {
        &&& r.0.stage matches UnlockStage::AwaitMigrationList { old_key, salt, new_key } && old_key@
            == key && salt@.len() == 32 && new_key@ == vault_key(password, salt@)
        &&& r.1 is ListItems
    }
}

/// The migration reads item `i` of `ids` next.
pub open spec fn reads_item(
    r: (VaultUnlock, UnlockAction),
    old_key: Seq<u8>,
    salt: Seq<u8>,
    new_key: Seq<u8>,
    ids: Seq<i64>,
    i: int,
) -> bool {
    &&& r.0.stage matches UnlockStage::AwaitMigrationRead { old_key: o, salt: s, new_key: n, ids: d, next }
        && o@ == old_key && s@ == salt && n@ == new_key && d@ == ids && next == i
    &&& r.1 == UnlockAction::ReadContent(ids[i])
}

/// The migration has re-encrypted every item and stores the new salt.
pub open spec fn stores_new_salt(r: (VaultUnlock, UnlockAction), salt: Seq<u8>, new_key: Seq<u8>) -> bool {
    &&& r.0.stage matches UnlockStage::AwaitSaltStore { salt: s, new_key: n } && s@ == salt && n@ == new_key
    &&& r.1 matches UnlockAction::StoreSalt(s) && s@ == salt
}

/// The next state and action that the outcome `event` of the last action
/// leads to from `m`.
pub open spec fn unlock_steps_to(m: VaultUnlock, event: UnlockEvent, res: (VaultUnlock, UnlockAction)) -> bool {
    match (m.stage, event) {
        (UnlockStage::AwaitAuth, UnlockEvent::Authenticated(Err(e))) => fails_with(
            res,
            "[biometric_auth 오류] "@ + e@,
        ),
        (UnlockStage::AwaitAuth, UnlockEvent::Authenticated(Ok(ok))) => if ok {
            res.0.stage is AwaitKey && res.1 is LoadKey
        } else {
            fails_with(res, "[biometric_auth] success=false 반환됨"@)
        },
        (UnlockStage::AwaitKey, UnlockEvent::KeyLoaded(Err(e))) => fails_with(
            res,
            "[load_key 오류] "@ + e@,
        ),
        (UnlockStage::AwaitKey, UnlockEvent::KeyLoaded(Ok(k))) => succeeds_with(res, k@),
        (UnlockStage::AwaitSalt, UnlockEvent::SaltLoaded(loaded)) => {
            let salt = match loaded {
                Ok(s) => s@,
                Err(_) => legacy_salt(),
            };
            &&& res.0.stage matches UnlockStage::AwaitCheckList { key, salt: s, legacy }
                && s@ == salt && key@ == vault_key(m.password@, salt) && legacy
                == loaded is Err
            &&& res.1 is ListItems
        },
        (UnlockStage::AwaitCheckList { key, salt, legacy }, UnlockEvent::Listed(listed)) => {
            match listed {
                Ok(ids) if ids@.len() > 0 => {
                    &&& res.0.stage matches UnlockStage::AwaitCheckRead { key: k, salt: s, legacy: l }
                        && k@ == key@ && s@ == salt@ && l == legacy
                    &&& res.1 == UnlockAction::ReadContent(ids@[0])
                },
                _ => after_check(m.password@, key@, salt@, legacy, res),
            }
        },
        (UnlockStage::AwaitCheckRead { key, salt, legacy }, UnlockEvent::ContentRead(read)) => {
            match read {
                Err(e) => fails_with(res, e@),
                Ok(c) => match decryption(key@, c@) {
                    Err(e) => fails_with(res, e),
                    Ok(_) => after_check(m.password@, key@, salt@, legacy, res),
                },
            }
        },
        (UnlockStage::AwaitKeyRefresh { key, .. }, UnlockEvent::Stored(_)) => succeeds_with(
            res,
            key@,
        ),
        (
            UnlockStage::AwaitMigrationList { old_key, salt, new_key },
            UnlockEvent::Listed(listed),
        ) => match listed {
            Err(e) => fails_with(res, e@),
            Ok(ids) => if ids@.len() > 0 {
                reads_item(res, old_key@, salt@, new_key@, ids@, 0)
            } else {
                stores_new_salt(res, salt@, new_key@)
            },
        },
        (
            UnlockStage::AwaitMigrationRead { old_key, salt, new_key, ids, next },
            UnlockEvent::ContentRead(read),
        ) => match read {
            Err(e) => fails_with(res, e@),
            Ok(c) => match decryption(old_key@, c@) {
                Err(e) => fails_with(res, e),
                Ok(plain) => if plain.len() > MAX_PLAINTEXT_LEN {
                    fails_with(res, aead_error_message())
                } else {
                    &&& res.0.stage matches UnlockStage::AwaitMigrationWrite {
                        old_key: o,
                        salt: s,
                        new_key: n,
                        ids: d,
                        next: i,
                    } && o@ == old_key@ && s@ == salt@ && n@ == new_key@ && d@ == ids@ && i
                        == next
                    &&& res.1 matches UnlockAction::WriteContent(id, data) && id == ids@[next as int]
                        && decryption(new_key@, data@) == Ok::<Seq<u8>, Seq<char>>(plain)
                },
            },
        },
        (
            UnlockStage::AwaitMigrationWrite { old_key, salt, new_key, ids, next },
            UnlockEvent::ContentWritten(written),
        ) => match written {
            Err(e) => fails_with(res, e@),
            Ok(_) => if next + 1 < ids@.len() {
                reads_item(res, old_key@, salt@, new_key@, ids@, next + 1)
            } else {
                stores_new_salt(res, salt@, new_key@)
            },
        },
        (UnlockStage::AwaitSaltStore { salt, new_key }, UnlockEvent::Stored(stored)) => match stored {
            Err(e) => fails_with(res, e@),
            Ok(_) => {
                &&& res.0.stage matches UnlockStage::AwaitKeyStore { salt: s, new_key: n } && s@ == salt@
                    && n@ == new_key@
                &&& res.1 matches UnlockAction::StoreKey(k) && k@ == new_key@
            },
        },
        (UnlockStage::AwaitKeyStore { new_key, .. }, UnlockEvent::Stored(stored)) => match stored {
            Err(e) => fails_with(res, e@),
            Ok(_) => succeeds_with(res, new_key@),
        },
        _ => true,
    }
}

impl VaultUnlock {
    /// Starts unlocking: by biometrics without a password, else by password.
    pub fn start(password: Option<String>) -> (res: (VaultUnlock, UnlockAction))
        ensures
            unlock_wf(res.0),
            password is None ==> res.0.stage is AwaitAuth && res.1 is Authenticate,
            password matches Some(p) ==> res.0.stage is AwaitSalt && res.1 is LoadSalt
                && res.0.password@ == p@,
    {
        match password {
            None => (VaultUnlock { password: String::new(), stage: UnlockStage::AwaitAuth }, UnlockAction::Authenticate),
            Some(p) => (VaultUnlock { password: p, stage: UnlockStage::AwaitSalt }, UnlockAction::LoadSalt),
        }
    }

    /// The key derived from the password is confirmed (or there is nothing to
    /// confirm it on): re-store it, or migrate a legacy vault.
    fn confirmed(password: String, key: Vec<u8>, salt: Vec<u8>, legacy: bool) -> (res: (VaultUnlock, UnlockAction))
        requires
            key@.len() == 32,
            key@ == vault_key(password@, salt@),
        ensures
            unlock_wf(res.0),
            res.0.password@ == password@,
            after_check(password@, key@, salt@, legacy, res),
    {
        if !legacy {
            let copy = key.clone();
            (VaultUnlock { password, stage: UnlockStage::AwaitKeyRefresh { key, salt } }, UnlockAction::StoreKey(copy))
        } else {
            let fresh_salt = random_bytes_32();
            let new_key = derive_raw_key(password.as_str(), &fresh_salt);
            let salt_vec = bytes_to_vec(&fresh_salt);
            (
                VaultUnlock {
                    password,
                    stage: UnlockStage::AwaitMigrationList { old_key: key, salt: salt_vec, new_key },
                },
                UnlockAction::ListItems,
            )
        }
    }

    /// The stored salt is written with the new key; then the new key.
    fn salt_stage(password: String, salt: Vec<u8>, new_key: Vec<u8>) -> (res: (VaultUnlock, UnlockAction))
        requires
            new_key@ == vault_key(password@, salt@),
            salt@.len() == 32,
        ensures
            unlock_wf(res.0),
            res.0.password@ == password@,
            stores_new_salt(res, salt@, new_key@),
    {
        let copy = salt.clone();
        (VaultUnlock { password, stage: UnlockStage::AwaitSaltStore { salt, new_key } }, UnlockAction::StoreSalt(copy))
    }

    /// Ends the unlock with an error.
    fn fail(password: String, msg: String) -> (res: (VaultUnlock, UnlockAction))
        ensures
            fails_with(res, msg@),
            unlock_wf(res.0),
            res.0.password@ == password@,
    {
        (VaultUnlock { password, stage: UnlockStage::Finished }, UnlockAction::Done(Err(msg)))
    }

    /// Ends the unlock with a session key.
    fn succeed(password: String, key: Vec<u8>) -> (res: (VaultUnlock, UnlockAction))
        ensures
            succeeds_with(res, key@),
            unlock_wf(res.0),
            res.0.password@ == password@,
    {
        (VaultUnlock { password, stage: UnlockStage::Finished }, UnlockAction::Done(Ok(key)))
    }

    /// Takes the outcome of the last action and decides the next one.
    pub fn step(self, event: UnlockEvent) -> (res: (VaultUnlock, UnlockAction))
        requires
            unlock_wf(self),
            answers(self, event),
        ensures
            unlock_wf(res.0),
            res.0.password@ == self.password@,
            unlock_steps_to(self, event, res),
    {
        let password = self.password;
        match self.stage {
            UnlockStage::AwaitAuth => match event {
                UnlockEvent::Authenticated(Err(e)) => {
                    let msg = String::from_str("[biometric_auth 오류] ").concat(e.as_str());
                    Self::fail(password, msg)
                },
                UnlockEvent::Authenticated(Ok(ok)) => {
                    if ok {
                        (VaultUnlock { password, stage: UnlockStage::AwaitKey }, UnlockAction::LoadKey)
                    } else {
                        Self::fail(password, String::from_str("[biometric_auth] success=false 반환됨"))
                    }
                },
                _ => Self::fail(password, String::new()),
            },
            UnlockStage::AwaitKey => match event {
                UnlockEvent::KeyLoaded(Err(e)) => {
                    let msg = String::from_str("[load_key 오류] ").concat(e.as_str());
                    Self::fail(password, msg)
                },
                UnlockEvent::KeyLoaded(Ok(k)) => Self::succeed(password, k),
                _ => Self::fail(password, String::new()),
            },
            UnlockStage::AwaitSalt => match event {
                UnlockEvent::SaltLoaded(loaded) => {
                    let legacy = loaded.is_err();
                    let salt = match loaded {
                        Ok(s) => s,
                        Err(_) => bytes_to_vec("shelf-vault-salt-v1".as_bytes()),
                    };
                    let key = derive_raw_key(password.as_str(), salt.as_slice());
                    (
                        VaultUnlock { password, stage: UnlockStage::AwaitCheckList { key, salt, legacy } },
                        UnlockAction::ListItems,
                    )
                },
                _ => Self::fail(password, String::new()),
            },
            UnlockStage::AwaitCheckList { key, salt, legacy } => match event {
                UnlockEvent::Listed(Ok(ids)) => {
                    if ids.len() > 0 {
                        let first = ids[0];
                        (
                            VaultUnlock { password, stage: UnlockStage::AwaitCheckRead { key, salt, legacy } },
                            UnlockAction::ReadContent(first),
                        )
                    } else {
                        Self::confirmed(password, key, salt, legacy)
                    }
                },
                _ => Self::confirmed(password, key, salt, legacy),
            },
            UnlockStage::AwaitCheckRead { key, salt, legacy } => match event {
                UnlockEvent::ContentRead(Err(e)) => Self::fail(password, e),
                UnlockEvent::ContentRead(Ok(c)) => {
                    let k = match make_crypto_key(key.as_slice()) {
                        Ok(k) => k,
                        Err(e) => return Self::fail(password, e),
                    };
                    match decrypt(&k, c.as_slice()) {
                        Err(e) => Self::fail(password, e),
                        Ok(_) => Self::confirmed(password, key, salt, legacy),
                    }
                },
                _ => Self::fail(password, String::new()),
            },
            UnlockStage::AwaitKeyRefresh { key, .. } => Self::succeed(password, key),
            UnlockStage::AwaitMigrationList { old_key, salt, new_key } => match event {
                UnlockEvent::Listed(Err(e)) => Self::fail(password, e),
                UnlockEvent::Listed(Ok(ids)) => {
                    if ids.len() > 0 {
                        let first = ids[0];
                        (
                            VaultUnlock {
                                password,
                                stage: UnlockStage::AwaitMigrationRead { old_key, salt, new_key, ids, next: 0 },
                            },
                            UnlockAction::ReadContent(first),
                        )
                    } else {
                        Self::salt_stage(password, salt, new_key)
                    }
                },
                _ => Self::fail(password, String::new()),
            },
            UnlockStage::AwaitMigrationRead { old_key, salt, new_key, ids, next } => match event {
                UnlockEvent::ContentRead(Err(e)) => Self::fail(password, e),
                UnlockEvent::ContentRead(Ok(c)) => {
                    let old = match make_crypto_key(old_key.as_slice()) {
                        Ok(k) => k,
                        Err(e) => return Self::fail(password, e),
                    };
                    let fresh = match make_crypto_key(new_key.as_slice()) {
                        Ok(k) => k,
                        Err(e) => return Self::fail(password, e),
                    };
                    let stored_len = c.len();
                    let plain = match decrypt(&old, c.as_slice()) {
                        Ok(p) => p,
                        Err(e) => return Self::fail(password, e),
                    };
                    let sealed = match encrypt(&fresh, plain.as_slice()) {
                        Ok(s) => s,
                        Err(e) => return Self::fail(password, e),
                    };
                    let id = ids[next];
                    (
                        VaultUnlock {
                            password,
                            stage: UnlockStage::AwaitMigrationWrite { old_key, salt, new_key, ids, next },
                        },
                        UnlockAction::WriteContent(id, sealed),
                    )
                },
                _ => Self::fail(password, String::new()),
            },
            UnlockStage::AwaitMigrationWrite { old_key, salt, new_key, ids, next } => match event {
                UnlockEvent::ContentWritten(Err(e)) => Self::fail(password, e),
                UnlockEvent::ContentWritten(Ok(())) => {
                    let count = ids.len();
                    if next + 1 < count {
                        let id = ids[next + 1];
                        (
                            VaultUnlock {
                                password,
                                stage: UnlockStage::AwaitMigrationRead { old_key, salt, new_key, ids, next: next + 1 },
                            },
                            UnlockAction::ReadContent(id),
                        )
                    } else {
                        Self::salt_stage(password, salt, new_key)
                    }
                },
                _ => Self::fail(password, String::new()),
            },
            UnlockStage::AwaitSaltStore { salt, new_key } => match event {
                UnlockEvent::Stored(Err(e)) => Self::fail(password, e),
                _ => {
                    let copy = new_key.clone();
                    (
                        VaultUnlock { password, stage: UnlockStage::AwaitKeyStore { salt, new_key } },
                        UnlockAction::StoreKey(copy),
                    )
                },
            },
            UnlockStage::AwaitKeyStore { new_key, .. } => match event {
                UnlockEvent::Stored(Err(e)) => Self::fail(password, e),
                _ => Self::succeed(password, new_key),
            },
            UnlockStage::Finished => Self::fail(password, String::new()),
        }
    }
}

/// The bytes of a slice in a vector.
fn bytes_to_vec(bytes: &[u8]) -> (res: Vec<u8>)
    ensures
        res@ == bytes@,
{
    let mut out: Vec<u8> = Vec::new();
    let mut i: usize = 0;
    while i < bytes.len()
        invariant
            0 <= i <= bytes@.len(),
            out@ == bytes@.take(i as int),
        decreases bytes@.len() - i,
    {
        out.push(bytes[i]);
        i = i + 1;
        assert(out@ == bytes@.take(i as int));
    }
    assert(bytes@.take(bytes@.len() as int) == bytes@);
    out
}

/// Law: a migration that stores its new salt and then its key ends the unlock
/// with that key, which is the key of the password under the new salt.
pub proof fn lemma_migration_completes(
    m: VaultUnlock,
    after_salt: (VaultUnlock, UnlockAction),
    after_key: (VaultUnlock, UnlockAction),
)
    requires
        unlock_wf(m),
        m.stage is AwaitSaltStore,
        unlock_steps_to(m, UnlockEvent::Stored(Ok(())), after_salt),
        unlock_steps_to(after_salt.0, UnlockEvent::Stored(Ok(())), after_key),
    ensures
        m.stage matches UnlockStage::AwaitSaltStore { salt, new_key } && {
            &&& new_key@ == vault_key(m.password@, salt@)
            &&& after_salt.1 matches UnlockAction::StoreKey(k) && k@ == new_key@
            &&& succeeds_with(after_key, new_key@)
        },
{
}

/// Law: once the keychain holds a salt, a password unlock is not a legacy
/// one: it checks the key of that password under that salt, which after a
/// migration is the key the migration stored.
pub proof fn lemma_stored_salt_is_not_legacy(
    m: VaultUnlock,
    salt: Vec<u8>,
    r: (VaultUnlock, UnlockAction),
)
    requires
        m.stage is AwaitSalt,
        unlock_steps_to(m, UnlockEvent::SaltLoaded(Ok(salt)), r),
    ensures
        r.0.stage matches UnlockStage::AwaitCheckList { key, salt: s, legacy } && !legacy && s@
            == salt@ && key@ == vault_key(m.password@, salt@),
{
}

/// Law: an unlock that is not a legacy one never starts a migration: from its
/// check it either goes on checking, re-stores its key, or ends.
pub proof fn lemma_non_legacy_never_migrates(
    m: VaultUnlock,
    event: UnlockEvent,
    r: (VaultUnlock, UnlockAction),
)
    requires
        (m.stage matches UnlockStage::AwaitCheckList { legacy, .. } && !legacy)
            || (m.stage matches UnlockStage::AwaitCheckRead { legacy, .. } && !legacy),
        answers(m, event),
        unlock_steps_to(m, event, r),
    ensures
        (r.0.stage matches UnlockStage::AwaitCheckRead { legacy, .. } && !legacy)
            || r.0.stage is AwaitKeyRefresh
            || r.0.stage is Finished,
{
}

/// Law: a vault that was set up unlocks by its password. When the keychain
/// hands back the salt that a setup stored, a later unlock by the same
/// password checks (as no legacy vault) exactly the key that the setup stored
/// and made the session key.
pub proof fn lemma_setup_then_unlock(
    password: Seq<char>,
    started: (VaultSetup, SetupAction),
    after_salt: (VaultSetup, SetupAction),
    after_key: (VaultSetup, SetupAction),
    m: VaultUnlock,
    loaded: Vec<u8>,
    r: (VaultUnlock, UnlockAction),
)
    requires
        setup_started(password, started),
        setup_steps_to(started.0, Ok(()), after_salt),
        setup_steps_to(after_salt.0, Ok(()), after_key),
        started.1 matches SetupAction::StoreSalt(s) && loaded@ == s@,
        m.stage is AwaitSalt,
        m.password@ == password,
        unlock_steps_to(m, UnlockEvent::SaltLoaded(Ok(loaded)), r),
    ensures
        after_key.1 matches SetupAction::Done(Ok(k)) && (r.0.stage matches UnlockStage::AwaitCheckList {
            key,
            legacy,
            ..
        } && !legacy && key@ == k@),
{
    crate::vault::lemma_setup_stores_matching_pair(password, started, after_salt, after_key);
}

/// Law: a legacy vault is migrated once. When a migration has stored its new
/// salt and then its key, the unlock ends with that key, which the password
/// gives under the new salt; and a later unlock by the same password, to which
/// the keychain hands back that salt, is no legacy unlock: it checks exactly
/// that key and, by `lemma_non_legacy_never_migrates`, migrates nothing.
pub proof fn lemma_migration_runs_once(
    m: VaultUnlock,
    after_salt: (VaultUnlock, UnlockAction),
    after_key: (VaultUnlock, UnlockAction),
    later: VaultUnlock,
    loaded: Vec<u8>,
    r: (VaultUnlock, UnlockAction),
)
    requires
        unlock_wf(m),
        m.stage matches UnlockStage::AwaitSaltStore { salt, .. } && loaded@ == salt@,
        unlock_steps_to(m, UnlockEvent::Stored(Ok(())), after_salt),
        unlock_steps_to(after_salt.0, UnlockEvent::Stored(Ok(())), after_key),
        later.stage is AwaitSalt,
        later.password@ == m.password@,
        unlock_steps_to(later, UnlockEvent::SaltLoaded(Ok(loaded)), r),
    ensures
        m.stage matches UnlockStage::AwaitSaltStore { salt, new_key } && {
            &&& new_key@ == vault_key(m.password@, salt@)
            &&& after_salt.1 matches UnlockAction::StoreKey(k) && k@ == new_key@
            &&& succeeds_with(after_key, new_key@)
            &&& r.0.stage matches UnlockStage::AwaitCheckList { key, legacy, .. } && !legacy
                && key@ == new_key@
        },
{
    lemma_migration_completes(m, after_salt, after_key);
    lemma_stored_salt_is_not_legacy(later, loaded, r);
}

/// A run of an unlock: state `ms[i]` takes event `es[i]` to state `ms[i + 1]`
/// and action `acts[i + 1]`; `acts[0]` is the action that `ms[0]` waits on.
pub open spec fn unlock_trace(ms: Seq<VaultUnlock>, es: Seq<UnlockEvent>, acts: Seq<UnlockAction>) -> bool {
    &&& ms.len() == es.len() + 1
    &&& acts.len() == ms.len()
    &&& forall|i: int|
        0 <= i < es.len() ==> answers(ms[i], #[trigger] es[i]) && unlock_steps_to(
            ms[i],
            es[i],
            (ms[i + 1], acts[i + 1]),
        )
}

/// At step `t` of the run the content `c` read for item `id` was written
/// back re-encrypted: it decrypts under `old_key`, and what was written
/// decrypts under `new_key` to the same plaintext.
pub open spec fn rewrite_at(
    es: Seq<UnlockEvent>,
    acts: Seq<UnlockAction>,
    old_key: Seq<u8>,
    new_key: Seq<u8>,
    id: i64,
    t: int,
) -> bool {
    &&& es[t] matches UnlockEvent::ContentRead(Ok(c))
    &&& acts[t + 1] matches UnlockAction::WriteContent(w, data)
    &&& w == id
    &&& decryption(old_key, c@) is Ok
    &&& decryption(new_key, data@) == decryption(old_key, c@)
}

/// Item `id` was re-encrypted at some step of the run.
pub open spec fn rewrote(
    es: Seq<UnlockEvent>,
    acts: Seq<UnlockAction>,
    old_key: Seq<u8>,
    new_key: Seq<u8>,
    id: i64,
) -> bool {
    exists|t: int| 0 <= t < es.len() && #[trigger] rewrite_at(es, acts, old_key, new_key, id, t)
}

/// Where a migration run stands after `n` steps, and what it has done.
pub open spec fn migration_progress(
    ms: Seq<VaultUnlock>,
    es: Seq<UnlockEvent>,
    acts: Seq<UnlockAction>,
    old_key: Seq<u8>,
    salt: Seq<u8>,
    new_key: Seq<u8>,
    ids: Seq<i64>,
    n: int,
) -> bool {
    &&& (acts[n] is Done ==> ms[n].stage is Finished)
    &&& match ms[n].stage {
        UnlockStage::AwaitMigrationRead { old_key: o, salt: s, new_key: k, ids: d, next } => {
            &&& o@ == old_key && s@ == salt && k@ == new_key && d@ == ids && next < ids.len()
            &&& forall|j: int| 0 <= j < next ==> rewrote(es, acts, old_key, new_key, #[trigger] ids[j])
        },
        UnlockStage::AwaitMigrationWrite { old_key: o, salt: s, new_key: k, ids: d, next } => {
            &&& o@ == old_key && s@ == salt && k@ == new_key && d@ == ids && next < ids.len()
            &&& forall|j: int| 0 <= j <= next ==> rewrote(es, acts, old_key, new_key, #[trigger] ids[j])
        },
        UnlockStage::AwaitSaltStore { salt: s, new_key: k } => {
            &&& s@ == salt && k@ == new_key
            &&& forall|j: int| 0 <= j < ids.len() ==> rewrote(es, acts, old_key, new_key, #[trigger] ids[j])
        },
        UnlockStage::AwaitKeyStore { salt: s, new_key: k } => {
            &&& s@ == salt && k@ == new_key
            &&& forall|j: int| 0 <= j < ids.len() ==> rewrote(es, acts, old_key, new_key, #[trigger] ids[j])
        },
        UnlockStage::Finished => acts[n] matches UnlockAction::Done(r) && (r matches Ok(k) ==> k@
            == new_key && forall|j: int| 0 <= j < ids.len() ==> rewrote(es, acts, old_key, new_key, #[trigger] ids[j])),
        _ => false,
    }
}

/// The stages of a migration keep their keys, and every item read has been
/// written back re-encrypted before the next one is read.
#[verifier::rlimit(50)]
proof fn lemma_migration_prefix(
    ms: Seq<VaultUnlock>,
    es: Seq<UnlockEvent>,
    acts: Seq<UnlockAction>,
    old_key: Seq<u8>,
    salt: Seq<u8>,
    new_key: Seq<u8>,
    ids: Seq<i64>,
    n: int,
)
    requires
        unlock_trace(ms, es, acts),
        1 <= n <= es.len(),
        ms[0].stage matches UnlockStage::AwaitMigrationList { old_key: o, salt: s, new_key: k } && o@
            == old_key && s@ == salt && k@ == new_key,
        es[0] matches UnlockEvent::Listed(Ok(l)) && l@ == ids,
    ensures
        migration_progress(ms, es, acts, old_key, salt, new_key, ids, n),
    decreases n,
{
    if n == 1 {
        assert(answers(ms[0], es[0]) && unlock_steps_to(ms[0], es[0], (ms[1], acts[1])));
    } else {
        let p = n - 1;
        lemma_migration_prefix(ms, es, acts, old_key, salt, new_key, ids, p);
        assert(answers(ms[p], es[p]) && unlock_steps_to(ms[p], es[p], (ms[n], acts[n])));
        match ms[p].stage {
            UnlockStage::AwaitMigrationRead { next, .. } => {
                if acts[n] is WriteContent {
                    assert(rewrite_at(es, acts, old_key, new_key, ids[next as int], p));
                    assert forall|j: int| 0 <= j <= next implies rewrote(
                        es,
                        acts,
                        old_key,
                        new_key,
                        #[trigger] ids[j],
                    ) by {
                        if j == next {
                            assert(rewrite_at(es, acts, old_key, new_key, ids[j], p));
                        }
                    }
                }
            },
            UnlockStage::AwaitMigrationWrite { next, .. } => {
                assert forall|j: int| 0 <= j < next + 1 implies rewrote(
                    es,
                    acts,
                    old_key,
                    new_key,
                    #[trigger] ids[j],
                ) by {}
            },
            _ => {},
        }
    }
}

/// Law: a legacy migration re-encrypts every item. When an unlock that lists
/// the items `ids` for a migration from `old_key` to `new_key` ends with a
/// session key, that key is `new_key` (the password's key under the new
/// salt); every listed item was read, decrypted under `old_key` and written
/// back so that it decrypts under `new_key` to its former plaintext; and
/// every write of the run is such a re-encryption.
pub proof fn lemma_migration_reencrypts_every_item(
    ms: Seq<VaultUnlock>,
    es: Seq<UnlockEvent>,
    acts: Seq<UnlockAction>,
    old_key: Seq<u8>,
    salt: Seq<u8>,
    new_key: Seq<u8>,
    ids: Seq<i64>,
    key: Vec<u8>,
)
    requires
        unlock_trace(ms, es, acts),
        1 <= es.len(),
        unlock_wf(ms[0]),
        ms[0].stage matches UnlockStage::AwaitMigrationList { old_key: o, salt: s, new_key: k } && o@
            == old_key && s@ == salt && k@ == new_key,
        es[0] matches UnlockEvent::Listed(Ok(l)) && l@ == ids,
        acts[es.len() as int] == UnlockAction::Done(Ok(key)),
    ensures
        key@ == new_key,
        new_key == vault_key(ms[0].password@, salt),
        forall|j: int| 0 <= j < ids.len() ==> rewrote(es, acts, old_key, new_key, #[trigger] ids[j]),
        forall|t: int|
            0 <= t < es.len() && (#[trigger] acts[t + 1]) is WriteContent ==> rewrite_at(
                es,
                acts,
                old_key,
                new_key,
                acts[t + 1]->WriteContent_0,
                t,
            ),
{
    lemma_migration_prefix(ms, es, acts, old_key, salt, new_key, ids, es.len() as int);
    assert forall|t: int|
        0 <= t < es.len() && (#[trigger] acts[t + 1]) is WriteContent implies rewrite_at(
            es,
            acts,
            old_key,
            new_key,
            acts[t + 1]->WriteContent_0,
            t,
        ) by {
        assert(answers(ms[t], es[t]) && unlock_steps_to(ms[t], es[t], (ms[t + 1], acts[t + 1])));
        if t >= 1 {
            lemma_migration_prefix(ms, es, acts, old_key, salt, new_key, ids, t);
        }
    }
}

} // verus!
