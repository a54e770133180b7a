use rrr_core::api::StorageError;
use rrr_core::api::WifiCredentials;
use rrr_core::credentials::CredentialStore;

fn creds(ssid: &str, password: &str) -> WifiCredentials {
    WifiCredentials { ssid: ssid.to_string(), password: password.to_string() }
}

#[test]
fn set_then_get_returns_the_same_pair() {
    let mut store = CredentialStore::new(256);
    assert_eq!(store.set(&creds("net1", "pw123456")), Ok(()));
    let got = store.get().unwrap();
    assert_eq!(got.ssid, "net1");
    assert_eq!(got.password, "pw123456");
}

#[test]
fn erase_then_get_returns_none() {
    let mut store = CredentialStore::new(256);
    assert_eq!(store.set(&creds("net1", "pw123456")), Ok(()));
    assert_eq!(store.erase(), Ok(()));
    assert!(store.get().is_none());
}

#[test]
fn fresh_store_holds_no_credential() {
    let store = CredentialStore::new(256);
    assert!(store.get().is_none());
}

#[test]
fn a_lone_ssid_is_no_credential() {
    let store = CredentialStore::from_slots(Some("net1".to_string()), None, 256);
    assert!(store.get().is_none());
}

#[test]
fn a_lone_password_is_no_credential() {
    let store = CredentialStore::from_slots(None, Some("pw123456".to_string()), 256);
    assert!(store.get().is_none());
}

#[test]
fn both_slots_recovered_form_a_credential() {
    let store = CredentialStore::from_slots(
        Some("net1".to_string()),
        Some("pw123456".to_string()),
        256,
    );
    let got = store.get().unwrap();
    assert_eq!(got.ssid, "net1");
    assert_eq!(got.password, "pw123456");
}

#[test]
fn a_pair_that_does_not_fit_is_refused_and_nothing_changes() {
    let mut store = CredentialStore::new(8);
    assert_eq!(store.set(&creds("net1", "pw123456")), Err(StorageError::OutOfSpace));
    assert!(store.get().is_none());
}

#[test]
fn a_failed_set_keeps_the_previous_pair() {
    let mut store = CredentialStore::new(12);
    assert_eq!(store.set(&creds("net1", "pw123456")), Ok(()));
    assert_eq!(
        store.set(&creds("a-much-longer-network-name", "pw123456")),
        Err(StorageError::OutOfSpace)
    );
    let got = store.get().unwrap();
    assert_eq!(got.ssid, "net1");
    assert_eq!(got.password, "pw123456");
}

#[test]
fn an_unformatted_medium_refuses_everything() {
    let mut store = CredentialStore::unformatted();
    assert!(store.get().is_none());
    assert_eq!(store.set(&creds("net1", "pw123456")), Err(StorageError::Uninitialized));
    assert_eq!(store.erase(), Err(StorageError::Uninitialized));
    assert!(store.get().is_none());
}
