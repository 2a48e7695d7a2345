use vstd::prelude::*;

verus! {

/// Explicitly supplied interactive credentials: username and password.
pub struct PasswordAuth(pub String, pub String);

impl Clone for PasswordAuth {
    fn clone(&self) -> (r: Self)
        ensures
            r.0@ == self.0@,
            r.1@ == self.1@,
    {
        PasswordAuth(self.0.clone(), self.1.clone())
    }
}

/// The parsed command line: the subcommand plus the global options.
pub struct Syncoon {
    pub cmd: SyncoonCommand,
    pub debug: bool,
    pub log_file_out: bool,
    pub log_file_path: Option<String>,
    pub username: Option<String>,
    pub password: Option<String>,
    pub encryption_password: Option<String>,
}

/// The subcommands: run the policy revert against a target instance and
/// room, manage stored credentials, or print the version.
pub enum SyncoonCommand {
    Run { dracoon: String, data_room_id: u64 },
    Config { cmd: ConfigCommand },
    Version,
}

/// Credential management: authentication credentials (refresh token) or
/// encryption credentials (encryption secret).
#[allow(inconsistent_fields)]
pub enum ConfigCommand {
    Auth { cmd: ConfigAuthCommand },
    Crypto { cmd: ConfigCryptoCommand },
}

/// Show or remove the stored refresh token of a target.
pub enum ConfigAuthCommand {
    Ls { target: String },
    Rm { target: String },
}

/// Show or remove the stored encryption secret of a target.
pub enum ConfigCryptoCommand {
    Ls { target: String },
    Rm { target: String },
}

} // verus!
