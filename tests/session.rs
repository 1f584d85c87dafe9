use proc_qq::{DeviceSource, FileSessionStore, MemorySessionStore, SessionStore};

#[test]
fn memory_store_round_trip() {
    let mut store = MemorySessionStore::new();
    assert_eq!(store.load_session(), Ok(None));
    assert_eq!(store.save_session(vec![1, 2, 3]), Ok(()));
    assert_eq!(store.load_session(), Ok(Some(vec![1, 2, 3])));
    assert_eq!(store.save_session(vec![4]), Ok(()));
    assert_eq!(store.load_session(), Ok(Some(vec![4])));
    assert_eq!(store.remove_session(), Ok(()));
    assert_eq!(store.load_session(), Ok(None));
}

#[test]
fn removing_absent_session_succeeds() {
    let mut store = MemorySessionStore::new();
    assert_eq!(store.remove_session(), Ok(()));
    assert_eq!(store.remove_session(), Ok(()));
    assert_eq!(store.load_session(), Ok(None));
}

#[test]
fn empty_session_round_trip() {
    let mut store = MemorySessionStore::new();
    assert_eq!(store.save_session(Vec::new()), Ok(()));
    assert_eq!(store.load_session(), Ok(Some(Vec::new())));
}

#[test]
fn file_store_keeps_path() {
    let store = FileSessionStore::boxed("session.token".to_string());
    assert_eq!(store.path, "session.token");
}

#[test]
fn default_device_source_is_device_json() {
    assert_eq!(DeviceSource::default(), DeviceSource::JsonFile("device.json".to_string()));
}
