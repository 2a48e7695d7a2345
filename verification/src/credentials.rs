use vstd::prelude::*;

use crate::errors::AppError;

verus! {

/// The platform credential entry this library stores secrets in.
#[verifier::external_type_specification]
#[verifier::external_body]
pub struct ExEntry(keyring::Entry);

/// Relies on keyring::Entry::new: opens the platform credential entry for
/// the service and user pair, or fails when the names are unusable for the
/// platform's store.
#[verifier::external_body]
fn open_entry(service: &str, user: &str) -> (r: Result<keyring::Entry, ()>) {
    keyring::Entry::new(service, user).map_err(|_| ())
}

/// Relies on keyring::Entry::set_password: stores the secret under the
/// entry, replacing any previous one.
#[verifier::external_body]
fn entry_set_password(entry: &keyring::Entry, secret: &str) -> (r: Result<(), ()>) {
    entry.set_password(secret).map_err(|_| ())
}

/// Relies on keyring::Entry::get_password: returns the stored secret, or an
/// error — NoEntry when nothing is stored under the entry.
#[verifier::external_body]
fn entry_get_password(entry: &keyring::Entry) -> (r: Result<String, ()>) {
    entry.get_password().map_err(|_| ())
}

/// Relies on keyring::Entry::delete_credential: removes the entry's
/// credential from the platform store.
#[verifier::external_body]
fn entry_delete_credential(entry: &keyring::Entry) -> (r: Result<(), ()>) {
    entry.delete_credential().map_err(|_| ())
}

/// Secure, platform-backed secret storage keyed by a target identity.
/// What is stored is process-external: the contracts of the accessors say
/// only how each outcome is classified, never what the platform returns.
pub struct CredentialStore {
    entry: keyring::Entry,
}

impl CredentialStore {
    /// Opens the store for one target identity. The absence of a usable
    /// backend is fatal.
    pub fn open(service: &str, target: &str) -> (r: Result<CredentialStore, AppError>)
        ensures
            r is Err ==> r->Err_0 is CredentialStorageFailed,
    {
        match open_entry(service, target) {
            Ok(entry) => Ok(CredentialStore { entry }),
            Err(_) => Err(AppError::CredentialStorageFailed),
        }
    }

    /// Stores the secret; any storage failure is a credential-storage
    /// error.
    pub fn set_dracoon_env(&self, secret: &str) -> (r: Result<(), AppError>)
        ensures
            r is Err ==> r->Err_0 is CredentialStorageFailed,
    {
        match entry_set_password(&self.entry, secret) {
            Ok(_) => Ok(()),
            Err(_) => Err(AppError::CredentialStorageFailed),
        }
    }

    /// Retrieves the stored secret; a missing or unreadable entry is an
    /// invalid-account error.
    pub fn get_dracoon_env(&self) -> (r: Result<String, AppError>)
        ensures
            r is Err ==> r->Err_0 is InvalidAccount,
    {
        match entry_get_password(&self.entry) {
            Ok(secret) => Ok(secret),
            Err(_) => Err(AppError::InvalidAccount),
        }
    }

    /// Deletes the stored secret. Deleting an entry that holds nothing is
    /// an invalid-account error; a failure of the deletion itself is a
    /// credential-deletion error.
    pub fn delete_dracoon_env(&self) -> (r: Result<(), AppError>)
        ensures
            r is Err ==> (r->Err_0 is InvalidAccount || r->Err_0 is CredentialDeletionFailed),
    {
        match entry_get_password(&self.entry) {
            Ok(_) => {},
            Err(_) => {
                return Err(AppError::InvalidAccount);
            },
        }
        match entry_delete_credential(&self.entry) {
            Ok(_) => Ok(()),
            Err(_) => Err(AppError::CredentialDeletionFailed),
        }
    }
}

/// The OAuth2 client identity baked into the tool.
pub fn get_client_credentials() -> (r: (String, String))
    ensures
        r.0@ == "syncoon-client-id"@,
        r.1@ == "syncoon-client-secret"@,
{
    let client_id = String::from_str("syncoon-client-id");
    let client_secret = String::from_str("syncoon-client-secret");
    (client_id, client_secret)
}

} // verus!
