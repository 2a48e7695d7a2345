use syncoon::credentials::{get_client_credentials, CredentialStore};
use syncoon::errors::AppError;

/// The tests run against keyring's mock credential store, the crate's
/// documented way to test clients platform-independently; the shipped
/// configuration selects a real platform store instead.
fn use_mock_store() {
    keyring::set_default_credential_builder(keyring::mock::default_credential_builder());
}

#[test]
fn test_credential_round_trip() {
    use_mock_store();
    let store = CredentialStore::open("syncoon", "https://bla.example.com").unwrap();
    store.set_dracoon_env("secret123").unwrap();
    assert_eq!(store.get_dracoon_env().unwrap(), "secret123");
    store.delete_dracoon_env().unwrap();
    assert_eq!(store.get_dracoon_env(), Err(AppError::InvalidAccount));
}

#[test]
fn test_overwrite_keeps_one_entry_per_key() {
    use_mock_store();
    let store = CredentialStore::open("syncoon", "https://one.example.com").unwrap();
    store.set_dracoon_env("first").unwrap();
    store.set_dracoon_env("second").unwrap();
    assert_eq!(store.get_dracoon_env().unwrap(), "second");
}

#[test]
fn test_delete_of_missing_entry_is_invalid_account() {
    use_mock_store();
    let store = CredentialStore::open("syncoon", "https://empty.example.com").unwrap();
    assert_eq!(store.delete_dracoon_env(), Err(AppError::InvalidAccount));
}

#[test]
fn test_client_identity_pair() {
    let (id, secret) = get_client_credentials();
    assert_eq!(id, "syncoon-client-id");
    assert_eq!(secret, "syncoon-client-secret");
}
