use vstd::prelude::*;

verus! {

/// The error taxonomy of the whole pipeline: connection failures, URL
/// validation, credential storage, remote API errors (generic, storage and
/// authentication specific), I/O and argument problems.
///
/// Remote API error payloads are carried as their rendered message text; the
/// transport layer formats them before handing them to the library.
#[derive(Debug)]
pub enum AppError {
    ConnectionFailed,
    Unknown,
    InvalidUrl(String),
    CredentialStorageFailed,
    CredentialDeletionFailed,
    InvalidAccount,
    DracoonError(String),
    DracoonS3Error(String),
    DracoonAuthError(String),
    IoError,
    InvalidArgument(String),
    LogFileCreationFailed,
}

impl AppError {
    /// Abstract value of an error: the variant with its payload as a
    /// sequence of characters.
    pub open spec fn view_eq(&self, other: &AppError) -> bool {
        match (self, other) {
            (AppError::ConnectionFailed, AppError::ConnectionFailed) => true,
            (AppError::Unknown, AppError::Unknown) => true,
            (AppError::InvalidUrl(a), AppError::InvalidUrl(b)) => a@ == b@,
            (AppError::CredentialStorageFailed, AppError::CredentialStorageFailed) => true,
            (AppError::CredentialDeletionFailed, AppError::CredentialDeletionFailed) => true,
            (AppError::InvalidAccount, AppError::InvalidAccount) => true,
            (AppError::DracoonError(a), AppError::DracoonError(b)) => a@ == b@,
            (AppError::DracoonS3Error(a), AppError::DracoonS3Error(b)) => a@ == b@,
            (AppError::DracoonAuthError(a), AppError::DracoonAuthError(b)) => a@ == b@,
            (AppError::IoError, AppError::IoError) => true,
            (AppError::InvalidArgument(a), AppError::InvalidArgument(b)) => a@ == b@,
            (AppError::LogFileCreationFailed, AppError::LogFileCreationFailed) => true,
            _ => false,
        }
    }
}

impl Clone for AppError {
    fn clone(&self) -> (r: Self)
        ensures
            r.view_eq(self),
    {
        match self {
            AppError::ConnectionFailed => AppError::ConnectionFailed,
            AppError::Unknown => AppError::Unknown,
            AppError::InvalidUrl(u) => AppError::InvalidUrl(u.clone()),
            AppError::CredentialStorageFailed => AppError::CredentialStorageFailed,
            AppError::CredentialDeletionFailed => AppError::CredentialDeletionFailed,
            AppError::InvalidAccount => AppError::InvalidAccount,
            AppError::DracoonError(e) => AppError::DracoonError(e.clone()),
            AppError::DracoonS3Error(e) => AppError::DracoonS3Error(e.clone()),
            AppError::DracoonAuthError(e) => AppError::DracoonAuthError(e.clone()),
            AppError::IoError => AppError::IoError,
            AppError::InvalidArgument(m) => AppError::InvalidArgument(m.clone()),
            AppError::LogFileCreationFailed => AppError::LogFileCreationFailed,
        }
    }
}

impl PartialEq for AppError {
    fn eq(&self, other: &Self) -> (r: bool) {
        match (self, other) {
            (AppError::ConnectionFailed, AppError::ConnectionFailed) => true,
            (AppError::Unknown, AppError::Unknown) => true,
            (AppError::InvalidUrl(a), AppError::InvalidUrl(b)) => *a == *b,
            (AppError::CredentialStorageFailed, AppError::CredentialStorageFailed) => true,
            (AppError::CredentialDeletionFailed, AppError::CredentialDeletionFailed) => true,
            (AppError::InvalidAccount, AppError::InvalidAccount) => true,
            (AppError::DracoonError(a), AppError::DracoonError(b)) => *a == *b,
            (AppError::DracoonS3Error(a), AppError::DracoonS3Error(b)) => *a == *b,
            (AppError::DracoonAuthError(a), AppError::DracoonAuthError(b)) => *a == *b,
            (AppError::IoError, AppError::IoError) => true,
            (AppError::InvalidArgument(a), AppError::InvalidArgument(b)) => *a == *b,
            (AppError::LogFileCreationFailed, AppError::LogFileCreationFailed) => true,
            _ => false,
        }
    }
}

impl vstd::std_specs::cmp::PartialEqSpecImpl for AppError {
    open spec fn obeys_eq_spec() -> bool {
        true
    }

    open spec fn eq_spec(&self, other: &Self) -> bool {
        self.view_eq(other)
    }
}

/// What the library reads of a failed transport call: the variant of the
/// client error, with each response payload already rendered to its message
/// text. The transport layer converts its own error into this, one variant
/// at a time, before handing it over.
pub enum ClientErrorKind {
    ConnectionFailed,
    Http(String),
    Auth(String),
    InvalidUrl(String),
    Io,
    S3(String),
    MissingArgument,
    Crypto,
    Other,
}

/// Classifies a failed transport call into the library's error taxonomy:
/// response payloads are carried through verbatim, a missing argument and a
/// crypto failure become invalid-argument errors with fixed texts, and
/// anything else is unknown.
pub fn map_client_error(kind: ClientErrorKind) -> (r: AppError)
    ensures
        kind is ConnectionFailed ==> r is ConnectionFailed,
        kind matches ClientErrorKind::Http(m) ==> (r matches AppError::DracoonError(s) && s == m),
        kind matches ClientErrorKind::Auth(m) ==> (r matches AppError::DracoonAuthError(s) && s
            == m),
        kind matches ClientErrorKind::InvalidUrl(m) ==> (r matches AppError::InvalidUrl(s) && s
            == m),
        kind is Io ==> r is IoError,
        kind matches ClientErrorKind::S3(m) ==> (r matches AppError::DracoonS3Error(s) && s == m),
        kind is MissingArgument ==> (r matches AppError::InvalidArgument(s) && s@
            == "Missing argument (password set?)"@),
        kind is Crypto ==> (r matches AppError::InvalidArgument(s) && s@
            == "Wrong encryption secret."@),
        kind is Other ==> r is Unknown,
{
    match kind {
        ClientErrorKind::ConnectionFailed => AppError::ConnectionFailed,
        ClientErrorKind::Http(m) => AppError::DracoonError(m),
        ClientErrorKind::Auth(m) => AppError::DracoonAuthError(m),
        ClientErrorKind::InvalidUrl(m) => AppError::InvalidUrl(m),
        ClientErrorKind::Io => AppError::IoError,
        ClientErrorKind::S3(m) => AppError::DracoonS3Error(m),
        ClientErrorKind::MissingArgument => AppError::InvalidArgument(
            String::from_str("Missing argument (password set?)"),
        ),
        ClientErrorKind::Crypto => AppError::InvalidArgument(
            String::from_str("Wrong encryption secret."),
        ),
        ClientErrorKind::Other => AppError::Unknown,
    }
}

/// The user-facing message text of each error variant.
pub open spec fn spec_error_message(err: &AppError) -> Seq<char> {
    match err {
        AppError::InvalidUrl(url) => "Invalid URL: "@ + url@,
        AppError::IoError => "Error reading / writing content."@,
        AppError::DracoonError(e) => e@,
        AppError::ConnectionFailed => "Connection failed."@,
        AppError::CredentialDeletionFailed => "Credential deletion failed."@,
        AppError::CredentialStorageFailed => "Credential store failed."@,
        AppError::InvalidAccount => "Invalid account."@,
        AppError::Unknown => "Unknown error."@,
        AppError::DracoonS3Error(e) => e@,
        AppError::DracoonAuthError(e) => e@,
        AppError::InvalidArgument(msg) => msg@,
        AppError::LogFileCreationFailed => "Log file creation failed."@,
    }
}

/// Renders the message that the top-level caller prints for an error.
pub fn get_error_message(err: &AppError) -> (r: String)
    ensures
        r@ == spec_error_message(err),
{
    match err {
        AppError::InvalidUrl(url) => {
            let msg = String::from_str("Invalid URL: ");
            msg.concat(url.as_str())
        },
        AppError::IoError => String::from_str("Error reading / writing content."),
        AppError::DracoonError(e) => e.clone(),
        AppError::ConnectionFailed => String::from_str("Connection failed."),
        AppError::CredentialDeletionFailed => String::from_str("Credential deletion failed."),
        AppError::CredentialStorageFailed => String::from_str("Credential store failed."),
        AppError::InvalidAccount => String::from_str("Invalid account."),
        AppError::Unknown => String::from_str("Unknown error."),
        AppError::DracoonS3Error(e) => e.clone(),
        AppError::DracoonAuthError(e) => e.clone(),
        AppError::InvalidArgument(msg) => msg.clone(),
        AppError::LogFileCreationFailed => String::from_str("Log file creation failed."),
    }
}

} // verus!
