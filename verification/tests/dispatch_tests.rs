use std::cell::{Cell, RefCell};
use std::collections::HashMap;
use std::rc::Rc;

use foreign_dispatch::codec::write_string;
use foreign_dispatch::dispatch::{
    Keychain, KeychainDispatcher, KEYCHAIN_GET_SELECTOR, KEYCHAIN_PUT_SELECTOR,
};
use foreign_dispatch::handle_map::HandleMap;
use foreign_dispatch::proxy::{CallError, KeychainProxy};
use foreign_dispatch::registry::{ForeignCallbackInternals, IDX_CALLBACK_FREE};

struct FixedKeychain;

impl Keychain for FixedKeychain {
    fn get(&self, key: String) -> Result<Option<String>, String> {
        if key == "username" {
            Ok(Some("alice".to_string()))
        } else {
            Ok(None)
        }
    }

    fn put(&self, _key: String, _value: String) -> Result<(), String> {
        Ok(())
    }
}

struct RaisingKeychain;

impl Keychain for RaisingKeychain {
    fn get(&self, _key: String) -> Result<Option<String>, String> {
        Err("keychain locked".to_string())
    }

    fn put(&self, _key: String, _value: String) -> Result<(), String> {
        Err("keychain locked".to_string())
    }
}

struct StoreKeychain {
    store: RefCell<HashMap<String, String>>,
}

impl StoreKeychain {
    fn new() -> Self {
        StoreKeychain { store: RefCell::new(HashMap::new()) }
    }
}

impl Keychain for StoreKeychain {
    fn get(&self, key: String) -> Result<Option<String>, String> {
        Ok(self.store.borrow().get(&key).cloned())
    }

    fn put(&self, key: String, value: String) -> Result<(), String> {
        self.store.borrow_mut().insert(key, value);
        Ok(())
    }
}

struct CountingKeychain {
    drops: Rc<Cell<u32>>,
}

impl Drop for CountingKeychain {
    fn drop(&mut self) {
        self.drops.set(self.drops.get() + 1);
    }
}

impl Keychain for CountingKeychain {
    fn get(&self, _key: String) -> Result<Option<String>, String> {
        Ok(None)
    }

    fn put(&self, _key: String, _value: String) -> Result<(), String> {
        Ok(())
    }
}

fn string_args(parts: &[&str]) -> Vec<u8> {
    let mut args = Vec::new();
    for part in parts {
        write_string(&mut args, part);
    }
    args
}

#[test]
fn registry_starts_unset() {
    let slot = ForeignCallbackInternals::new();
    assert_eq!(slot.get_callback(), None);
}

#[test]
fn registry_set_once_then_read() {
    let mut slot = ForeignCallbackInternals::new();
    slot.set_callback(7);
    assert_eq!(slot.get_callback(), Some(7));
    assert_eq!(slot.get_callback(), Some(7));
}

#[test]
fn handles_are_distinct_and_nonzero() {
    let mut map: HandleMap<u32> = HandleMap::new();
    let mut handles = Vec::new();
    for i in 0..64u32 {
        handles.push(map.insert(i));
    }
    for (i, h) in handles.iter().enumerate() {
        assert_ne!(*h, 0);
        for other in handles.iter().skip(i + 1) {
            assert_ne!(*h, *other);
        }
    }
    assert_eq!(map.len(), 64);
}

#[test]
fn handle_map_get_and_remove() {
    let mut map: HandleMap<String> = HandleMap::new();
    let h = map.insert("alice".to_string());
    assert_eq!(map.get(h), Some(&"alice".to_string()));
    assert_eq!(map.remove(h), Some("alice".to_string()));
    assert_eq!(map.get(h), None);
    assert_eq!(map.remove(h), None);
}

#[test]
fn keychain_get_present() {
    let mut dispatcher: KeychainDispatcher<FixedKeychain> = KeychainDispatcher::new();
    let handle = dispatcher.register(FixedKeychain);
    assert_eq!(handle, 1);
    let resp = dispatcher.dispatch(handle, KEYCHAIN_GET_SELECTOR, string_args(&["username"]));
    assert_eq!(
        resp,
        vec![0x00, 0x01, 0x00, 0x00, 0x00, 0x05, b'a', b'l', b'i', b'c', b'e']
    );
}

#[test]
fn keychain_get_absent() {
    let mut dispatcher: KeychainDispatcher<FixedKeychain> = KeychainDispatcher::new();
    let handle = dispatcher.register(FixedKeychain);
    let resp = dispatcher.dispatch(handle, KEYCHAIN_GET_SELECTOR, string_args(&["password"]));
    assert_eq!(resp, vec![0x00, 0x00]);
}

#[test]
fn put_returns_bare_success() {
    let mut dispatcher: KeychainDispatcher<StoreKeychain> = KeychainDispatcher::new();
    let handle = dispatcher.register(StoreKeychain::new());
    let resp = dispatcher.dispatch(handle, KEYCHAIN_PUT_SELECTOR, string_args(&["k", "v"]));
    assert_eq!(resp, vec![0x00]);
    let resp = dispatcher.dispatch(handle, KEYCHAIN_GET_SELECTOR, string_args(&["k"]));
    assert_eq!(resp, vec![0x00, 0x01, 0x00, 0x00, 0x00, 0x01, b'v']);
}

#[test]
fn release_drops_exactly_once() {
    let drops = Rc::new(Cell::new(0));
    let mut dispatcher: KeychainDispatcher<CountingKeychain> = KeychainDispatcher::new();
    let handle = dispatcher.register(CountingKeychain { drops: drops.clone() });
    assert_eq!(drops.get(), 0);
    let resp = dispatcher.dispatch(handle, IDX_CALLBACK_FREE, Vec::new());
    assert_eq!(resp, Vec::<u8>::new());
    assert_eq!(drops.get(), 1);
    // Releasing an already-released handle is the documented no-op.
    let resp = dispatcher.dispatch(handle, IDX_CALLBACK_FREE, Vec::new());
    assert_eq!(resp, Vec::<u8>::new());
    assert_eq!(drops.get(), 1);
}

#[test]
fn unknown_selector_reports_protocol_error() {
    let mut dispatcher: KeychainDispatcher<FixedKeychain> = KeychainDispatcher::new();
    let handle = dispatcher.register(FixedKeychain);
    let resp = dispatcher.dispatch(handle, 99, Vec::new());
    assert_eq!(resp[0], 0x02);
    assert_eq!(
        String::from_utf8(resp[1..].to_vec()).unwrap(),
        "unknown method selector"
    );
}

#[test]
fn stale_handle_after_release() {
    let mut dispatcher: KeychainDispatcher<FixedKeychain> = KeychainDispatcher::new();
    let handle = dispatcher.register(FixedKeychain);
    dispatcher.dispatch(handle, IDX_CALLBACK_FREE, Vec::new());
    let resp = dispatcher.dispatch(handle, KEYCHAIN_GET_SELECTOR, string_args(&["username"]));
    assert_eq!(resp[0], 0x02);
    assert_eq!(String::from_utf8(resp[1..].to_vec()).unwrap(), "stale handle");
}

#[test]
fn unregistered_handle_is_stale() {
    let mut dispatcher: KeychainDispatcher<FixedKeychain> = KeychainDispatcher::new();
    let resp = dispatcher.dispatch(41, KEYCHAIN_GET_SELECTOR, string_args(&["username"]));
    assert_eq!(resp[0], 0x02);
}

#[test]
fn malformed_arguments_reported() {
    let mut dispatcher: KeychainDispatcher<FixedKeychain> = KeychainDispatcher::new();
    let handle = dispatcher.register(FixedKeychain);
    let resp = dispatcher.dispatch(handle, KEYCHAIN_GET_SELECTOR, vec![0x01, 0x02]);
    assert_eq!(resp[0], 0x02);
    assert_eq!(
        String::from_utf8(resp[1..].to_vec()).unwrap(),
        "malformed argument buffer"
    );
    // Trailing bytes after the parameter list are refused too.
    let mut args = string_args(&["username"]);
    args.push(0x00);
    let resp = dispatcher.dispatch(handle, KEYCHAIN_GET_SELECTOR, args);
    assert_eq!(resp[0], 0x02);
}

#[test]
fn user_error_is_isolated_and_keeps_handle_live() {
    let mut dispatcher: KeychainDispatcher<RaisingKeychain> = KeychainDispatcher::new();
    let handle = dispatcher.register(RaisingKeychain);
    let resp = dispatcher.dispatch(handle, KEYCHAIN_GET_SELECTOR, string_args(&["username"]));
    assert_eq!(resp[0], 0x01);
    assert_eq!(dispatcher.live_objects(), 1);
    // The handle is still live: the same call still reaches user code.
    let resp = dispatcher.dispatch(handle, KEYCHAIN_GET_SELECTOR, string_args(&["username"]));
    assert_eq!(resp[0], 0x01);
}

#[test]
fn proxy_before_set_callback_fails_not_initialized() {
    let registry = ForeignCallbackInternals::new();
    let mut dispatcher: KeychainDispatcher<FixedKeychain> = KeychainDispatcher::new();
    let handle = dispatcher.register(FixedKeychain);
    let proxy = KeychainProxy::new(handle);
    assert_eq!(
        proxy.get(&registry, &mut dispatcher, "username"),
        Err(CallError::NotInitialized)
    );
    assert_eq!(
        proxy.put(&registry, &mut dispatcher, "k", "v"),
        Err(CallError::NotInitialized)
    );
    assert_eq!(
        proxy.release(&registry, &mut dispatcher),
        Err(CallError::NotInitialized)
    );
}

#[test]
fn proxy_end_to_end_get_put_release() {
    let mut registry = ForeignCallbackInternals::new();
    registry.set_callback(1);
    let mut dispatcher: KeychainDispatcher<StoreKeychain> = KeychainDispatcher::new();
    let handle = dispatcher.register(StoreKeychain::new());
    let proxy = KeychainProxy::new(handle);
    assert_eq!(proxy.get(&registry, &mut dispatcher, "username"), Ok(None));
    assert_eq!(proxy.put(&registry, &mut dispatcher, "username", "alice"), Ok(()));
    assert_eq!(
        proxy.get(&registry, &mut dispatcher, "username"),
        Ok(Some("alice".to_string()))
    );
    assert_eq!(proxy.release(&registry, &mut dispatcher), Ok(()));
    assert_eq!(dispatcher.live_objects(), 0);
    // A fresh proxy on the released handle sees the stale-handle report as a
    // protocol mismatch.
    let stale = KeychainProxy::new(handle);
    assert_eq!(
        stale.get(&registry, &mut dispatcher, "username"),
        Err(CallError::ProtocolMismatch)
    );
}

#[test]
fn proxy_surfaces_user_error() {
    let mut registry = ForeignCallbackInternals::new();
    registry.set_callback(1);
    let mut dispatcher: KeychainDispatcher<RaisingKeychain> = KeychainDispatcher::new();
    let handle = dispatcher.register(RaisingKeychain);
    let proxy = KeychainProxy::new(handle);
    assert_eq!(
        proxy.get(&registry, &mut dispatcher, "username"),
        Err(CallError::UserError("keychain locked".to_string()))
    );
    assert_eq!(
        proxy.put(&registry, &mut dispatcher, "k", "v"),
        Err(CallError::UserError("keychain locked".to_string()))
    );
    assert_eq!(dispatcher.live_objects(), 1);
}

#[test]
fn proxy_keeps_its_handle() {
    let proxy = KeychainProxy::new(41);
    assert_eq!(proxy.handle(), 41);
}
