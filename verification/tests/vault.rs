use std::cell::RefCell;
use std::sync::Mutex;

use shelf::crypto::{derive_key, encrypt, CryptoKey};
use shelf::unlock::{UnlockAction, UnlockEvent, UnlockStage, VaultUnlock};
use shelf::vault::{
    derive_raw_key, make_crypto_key, open_content, seal_content, session_crypto_key, AuthProvider,
    SetupAction, VaultSetup,
};

#[derive(Default)]
struct Keychain {
    key: Mutex<Option<Vec<u8>>>,
    salt: Mutex<Option<Vec<u8>>>,
    fail_store: bool,
}

impl AuthProvider for Keychain {
    fn biometric_auth(&self, _reason: &str) -> Result<bool, String> {
        Ok(true)
    }
    fn store_key(&self, key: &[u8]) -> Result<(), String> {
        if self.fail_store {
            return Err("keychain locked".to_string());
        }
        *self.key.lock().unwrap() = Some(key.to_vec());
        Ok(())
    }
    fn load_key(&self) -> Result<Vec<u8>, String> {
        self.key.lock().unwrap().clone().ok_or_else(|| "no key".to_string())
    }
    fn store_salt(&self, salt: &[u8]) -> Result<(), String> {
        if self.fail_store {
            return Err("keychain locked".to_string());
        }
        *self.salt.lock().unwrap() = Some(salt.to_vec());
        Ok(())
    }
    fn load_salt(&self) -> Result<Vec<u8>, String> {
        self.salt.lock().unwrap().clone().ok_or_else(|| "no salt".to_string())
    }
    fn store_db_key(&self, _key: &[u8]) -> Result<(), String> {
        Ok(())
    }
    fn load_db_key(&self) -> Result<Vec<u8>, String> {
        Err("none".to_string())
    }
}

/// Runs a vault setup against a keychain.
fn setup_vault(chain: &Keychain, password: &str) -> Result<Vec<u8>, String> {
    let (mut m, mut action) = VaultSetup::start(password);
    loop {
        let stored = match action {
            SetupAction::StoreSalt(salt) => chain.store_salt(&salt),
            SetupAction::StoreKey(key) => chain.store_key(&key),
            SetupAction::Done(result) => return result,
        };
        let (next, next_action) = m.step(stored);
        m = next;
        action = next_action;
    }
}

#[test]
fn session_key_errors() {
    assert_eq!(session_crypto_key(None).err().unwrap(), "Vault가 잠겨있습니다");
    assert_eq!(session_crypto_key(Some(&[1u8; 31])).err().unwrap(), "키 크기 오류");
    let key = session_crypto_key(Some(&[7u8; 32])).ok().unwrap();
    assert_eq!(key.as_bytes(), &[7u8; 32]);
    assert!(make_crypto_key(&[0u8; 33]).is_err());
    assert!(make_crypto_key(&[0u8; 32]).is_ok());
}

#[test]
fn content_round_trip() {
    let key_bytes = derive_raw_key("pw", b"salt");
    let sealed = seal_content(Some(&key_bytes), "니모닉 words").unwrap();
    let key = make_crypto_key(&key_bytes).ok().unwrap();
    assert_eq!(open_content(&key, &sealed).unwrap(), "니모닉 words");
    assert_eq!(seal_content(None, "x").unwrap_err(), "Vault가 잠겨있습니다");
    assert_eq!(seal_content(Some(&[0u8; 3]), "x").unwrap_err(), "키 크기 오류");
    let other = make_crypto_key(&derive_raw_key("other", b"salt")).ok().unwrap();
    assert_eq!(open_content(&other, &sealed).unwrap_err(), "aead::Error");
}

#[test]
fn non_utf8_content_is_an_error() {
    let key_bytes = derive_key("pw", b"salt");
    let key = CryptoKey::from_bytes(&key_bytes);
    let sealed = encrypt(&key, &[0xff, 0xfe]).unwrap();
    assert_eq!(
        open_content(&key, &sealed).unwrap_err(),
        String::from_utf8(vec![0xff, 0xfe]).unwrap_err().to_string()
    );
    assert_eq!(open_content(&key, &[1u8; 27]).unwrap_err(), "aead::Error");
    assert_eq!(open_content(&key, &[1u8; 5]).unwrap_err(), "데이터가 너무 짧음");
}

#[test]
fn setup_stores_salt_and_key() {
    let chain = Keychain::default();
    let key = setup_vault(&chain, "pw").unwrap();
    let salt = chain.salt.lock().unwrap().clone().unwrap();
    assert_eq!(salt.len(), 32);
    assert_eq!(key, derive_raw_key("pw", &salt));
    assert_eq!(chain.key.lock().unwrap().clone().unwrap(), key);
    let failing = Keychain { fail_store: true, ..Default::default() };
    assert_eq!(setup_vault(&failing, "pw").unwrap_err(), "keychain locked");
    assert!(failing.key.lock().unwrap().is_none());
}

#[test]
fn setup_steps_in_order() {
    let (m, action) = VaultSetup::start("pw");
    let salt = match action {
        SetupAction::StoreSalt(s) => s,
        _ => panic!("salt first"),
    };
    assert_eq!(salt.len(), 32);
    let (m, action) = m.step(Ok(()));
    match action {
        SetupAction::StoreKey(k) => assert_eq!(k, derive_raw_key("pw", &salt)),
        _ => panic!("key second"),
    }
    let (_, action) = m.step(Err("denied".to_string()));
    match action {
        SetupAction::Done(r) => assert_eq!(r.unwrap_err(), "denied"),
        _ => panic!("done"),
    }
}

#[test]
fn setup_then_password_unlock_gives_same_key() {
    let chain = Keychain::default();
    let key = setup_vault(&chain, "pw").unwrap();
    let items = RefCell::new(vec![(5, seal_content(Some(&key), "memo").unwrap())]);
    let (res, log) = drive(Some("pw"), &chain, Ok(true), &items);
    assert_eq!(res.unwrap(), key);
    assert_eq!(log, vec!["read 5".to_string(), "store key".to_string()]);
}

/// Runs an unlock against a keychain and an in-memory list of items.
fn drive(
    password: Option<&str>,
    chain: &Keychain,
    auth: Result<bool, String>,
    items: &RefCell<Vec<(i64, Vec<u8>)>>,
) -> (Result<Vec<u8>, String>, Vec<String>) {
    let mut log = Vec::new();
    let (mut m, mut action) = VaultUnlock::start(password.map(|p| p.to_string()));
    loop {
        let event = match action {
            UnlockAction::Authenticate => {
                log.push("auth".to_string());
                UnlockEvent::Authenticated(auth.clone())
            }
            UnlockAction::LoadKey => UnlockEvent::KeyLoaded(chain.load_key()),
            UnlockAction::LoadSalt => UnlockEvent::SaltLoaded(chain.load_salt()),
            UnlockAction::ListItems => {
                UnlockEvent::Listed(Ok(items.borrow().iter().map(|(id, _)| *id).collect()))
            }
            UnlockAction::ReadContent(id) => {
                log.push(format!("read {id}"));
                let found = items.borrow().iter().find(|(i, _)| *i == id).map(|(_, c)| c.clone());
                UnlockEvent::ContentRead(found.ok_or_else(|| "no row".to_string()))
            }
            UnlockAction::WriteContent(id, data) => {
                log.push(format!("write {id}"));
                for item in items.borrow_mut().iter_mut() {
                    if item.0 == id {
                        item.1 = data.clone();
                    }
                }
                UnlockEvent::ContentWritten(Ok(()))
            }
            UnlockAction::StoreSalt(s) => {
                log.push("store salt".to_string());
                UnlockEvent::Stored(chain.store_salt(&s))
            }
            UnlockAction::StoreKey(k) => {
                log.push("store key".to_string());
                UnlockEvent::Stored(chain.store_key(&k))
            }
            UnlockAction::Done(result) => {
                assert!(matches!(m.stage, UnlockStage::Finished));
                return (result, log);
            }
        };
        let next = m.step(event);
        m = next.0;
        action = next.1;
    }
}

#[test]
fn biometric_unlock_uses_stored_key() {
    let chain = Keychain::default();
    *chain.key.lock().unwrap() = Some(vec![9u8; 32]);
    let items = RefCell::new(vec![]);
    let (res, _) = drive(None, &chain, Ok(true), &items);
    assert_eq!(res.unwrap(), vec![9u8; 32]);
    let (res, _) = drive(None, &chain, Ok(false), &items);
    assert_eq!(res.unwrap_err(), "[biometric_auth] success=false 반환됨");
    let (res, _) = drive(None, &chain, Err("no sensor".to_string()), &items);
    assert_eq!(res.unwrap_err(), "[biometric_auth 오류] no sensor");
    let empty = Keychain::default();
    let (res, _) = drive(None, &empty, Ok(true), &items);
    assert_eq!(res.unwrap_err(), "[load_key 오류] no key");
}

#[test]
fn password_unlock_checks_first_item() {
    let chain = Keychain::default();
    let key = setup_vault(&chain, "right").unwrap();
    let sealed = seal_content(Some(&key), "secret").unwrap();
    let items = RefCell::new(vec![(3, sealed.clone()), (4, sealed)]);
    let (res, log) = drive(Some("right"), &chain, Ok(true), &items);
    assert_eq!(res.unwrap(), key);
    assert_eq!(log, vec!["read 3".to_string(), "store key".to_string()]);
    let (res, log) = drive(Some("wrong"), &chain, Ok(true), &items);
    assert_eq!(res.unwrap_err(), "aead::Error");
    assert_eq!(log, vec!["read 3".to_string()]);
}

#[test]
fn empty_vault_accepts_any_password() {
    let chain = Keychain::default();
    let _ = setup_vault(&chain, "right").unwrap();
    let salt = chain.salt.lock().unwrap().clone().unwrap();
    let items = RefCell::new(vec![]);
    let (res, _) = drive(Some("anything"), &chain, Ok(true), &items);
    assert_eq!(res.unwrap(), derive_raw_key("anything", &salt));
}

#[test]
fn legacy_vault_is_migrated_to_a_random_salt() {
    let chain = Keychain::default();
    let legacy_key = derive_raw_key("pw", b"shelf-vault-salt-v1");
    let items = RefCell::new(vec![
        (1, seal_content(Some(&legacy_key), "one").unwrap()),
        (2, seal_content(Some(&legacy_key), "two").unwrap()),
    ]);
    let (res, log) = drive(Some("pw"), &chain, Ok(true), &items);
    let new_key = res.unwrap();
    let salt = chain.salt.lock().unwrap().clone().unwrap();
    assert_eq!(salt.len(), 32);
    assert_eq!(new_key, derive_raw_key("pw", &salt));
    assert_eq!(chain.key.lock().unwrap().clone().unwrap(), new_key);
    assert_eq!(
        log,
        vec!["read 1", "read 1", "write 1", "read 2", "write 2", "store salt", "store key"]
            .into_iter()
            .map(|s| s.to_string())
            .collect::<Vec<_>>()
    );
    let k = make_crypto_key(&new_key).ok().unwrap();
    assert_eq!(open_content(&k, &items.borrow()[0].1).unwrap(), "one");
    assert_eq!(open_content(&k, &items.borrow()[1].1).unwrap(), "two");
    let (again, log) = drive(Some("pw"), &chain, Ok(true), &items);
    assert_eq!(again.unwrap(), new_key);
    assert_eq!(log, vec!["read 1".to_string(), "store key".to_string()]);
}

#[test]
fn legacy_migration_stops_on_keychain_error() {
    let chain = Keychain { fail_store: true, ..Default::default() };
    let legacy_key = derive_raw_key("pw", b"shelf-vault-salt-v1");
    let items = RefCell::new(vec![(1, seal_content(Some(&legacy_key), "one").unwrap())]);
    let (res, log) = drive(Some("pw"), &chain, Ok(true), &items);
    assert_eq!(res.unwrap_err(), "keychain locked");
    assert_eq!(log.last().unwrap(), "store salt");
}
