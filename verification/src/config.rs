use vstd::prelude::*;

use crate::errors::AppError;
use crate::models::{ConfigAuthCommand, ConfigCommand, ConfigCryptoCommand};
use crate::strings::{spec_starts_with, str_starts_with};

verus! {

/// The service name credentials are stored under.
pub fn service_name() -> (r: &'static str)
    ensures
        r@ == "syncoon"@,
{
    "syncoon"
}

/// `s` with every trailing `'/'` removed.
pub open spec fn trim_trailing_slashes(s: Seq<char>) -> Seq<char>
    decreases s.len(),
{
    if s.len() > 0 && s.last() == '/' {
        trim_trailing_slashes(s.drop_last())
    } else {
        s
    }
}

pub proof fn lemma_trim_trailing_slashes_is(s: Seq<char>, e: int)
    requires
        0 <= e <= s.len(),
        forall|j: int| e <= j < s.len() ==> s[j] == '/',
        e > 0 ==> s[e - 1] != '/',
    ensures
        trim_trailing_slashes(s) == s.subrange(0, e),
    decreases s.len(),
{
    if s.len() > 0 && s.last() == '/' {
        assert(e < s.len());
        assert forall|j: int| e <= j < s.drop_last().len() implies s.drop_last()[j] == '/' by {
            assert(s[j] == '/');
        }
        lemma_trim_trailing_slashes_is(s.drop_last(), e);
        assert(s.drop_last().subrange(0, e) =~= s.subrange(0, e));
    } else {
        if e < s.len() {
            assert(s[s.len() - 1] == '/');
        }
        assert(s.subrange(0, e) =~= s);
    }
}

/// Normalization of a credential-management target into the identity the
/// store is keyed by: a leading secure-scheme prefix is dropped, trailing
/// slashes are trimmed, the scheme is put back, and the encryption
/// namespace is discriminated by a distinguishing suffix.
pub open spec fn spec_prepare_config_target(target: Seq<char>, is_crypto: bool) -> Seq<char> {
    let stripped = if spec_starts_with(target, "https://"@) {
        target.subrange(8, target.len() as int)
    } else {
        target
    };
    let base = "https://"@ + trim_trailing_slashes(stripped);
    if is_crypto {
        base + "/-crypto"@
    } else {
        base
    }
}

/// Builds the store identity for a credential-management command's target,
/// per `spec_prepare_config_target`.
pub fn prepare_config_target(target: &str, is_crypto: bool) -> (r: String)
    ensures
        r@ == spec_prepare_config_target(target@, is_crypto),
{
    proof {
        reveal_strlit("https://");
    }
    let start: usize = if str_starts_with(target, "https://") {
        8
    } else {
        0
    };
    let ghost stripped = if spec_starts_with(target@, "https://"@) {
        target@.subrange(8, target@.len() as int)
    } else {
        target@
    };
    let n = target.unicode_len();
    let mut end: usize = n;
    while end > start && target.get_char(end - 1) == '/'
        invariant
            start <= end <= n,
            n == target@.len(),
            start == if spec_starts_with(target@, "https://"@) {
                8int
            } else {
                0int
            },
            forall|j: int| end <= j < n ==> target@[j] == '/',
        decreases end,
    {
        end = end - 1;
    }
    proof {
        assert(stripped == target@.subrange(start as int, n as int));
        assert forall|j: int| end - start <= j < stripped.len() implies stripped[j] == '/' by {
            assert(target@[j + start] == '/');
        }
        lemma_trim_trailing_slashes_is(stripped, end - start);
        assert(stripped.subrange(0, end - start) =~= target@.subrange(start as int, end as int));
    }
    let host = target.substring_char(start, end);
    let base = String::from_str("https://").concat(host);
    if is_crypto {
        let r = base.concat("/-crypto");
        assert(r@ =~= spec_prepare_config_target(target@, true));
        r
    } else {
        base
    }
}

/// What a credential-management command asks for.
#[derive(Clone, Copy, Debug, PartialEq, Eq, Structural)]
pub enum ConfigAction {
    ShowToken,
    RemoveToken,
    ShowSecret,
    RemoveSecret,
}

/// The action, target and namespace a credential-management command
/// resolves to: token commands live in the authentication namespace,
/// secret commands in the encryption namespace.
pub open spec fn spec_config_plan(cmd: ConfigCommand) -> (ConfigAction, Seq<char>, bool) {
    match cmd {
        ConfigCommand::Auth { cmd: ConfigAuthCommand::Ls { target } } => (
            ConfigAction::ShowToken,
            target@,
            false,
        ),
        ConfigCommand::Auth { cmd: ConfigAuthCommand::Rm { target } } => (
            ConfigAction::RemoveToken,
            target@,
            false,
        ),
        ConfigCommand::Crypto { cmd: ConfigCryptoCommand::Ls { target } } => (
            ConfigAction::ShowSecret,
            target@,
            true,
        ),
        ConfigCommand::Crypto { cmd: ConfigCryptoCommand::Rm { target } } => (
            ConfigAction::RemoveSecret,
            target@,
            true,
        ),
    }
}

/// Routes a credential-management command to its action, target and
/// namespace, per `spec_config_plan`.
pub fn config_plan(cmd: ConfigCommand) -> (r: (ConfigAction, String, bool))
    ensures
        (r.0, r.1@, r.2) == spec_config_plan(cmd),
{
    match cmd {
        ConfigCommand::Auth { cmd: ConfigAuthCommand::Ls { target } } => (
            ConfigAction::ShowToken,
            target,
            false,
        ),
        ConfigCommand::Auth { cmd: ConfigAuthCommand::Rm { target } } => (
            ConfigAction::RemoveToken,
            target,
            false,
        ),
        ConfigCommand::Crypto { cmd: ConfigCryptoCommand::Ls { target } } => (
            ConfigAction::ShowSecret,
            target,
            true,
        ),
        ConfigCommand::Crypto { cmd: ConfigCryptoCommand::Rm { target } } => (
            ConfigAction::RemoveSecret,
            target,
            true,
        ),
    }
}

/// The message shown when a target has no stored refresh token.
pub fn no_token_message(target: &str) -> (r: String)
    ensures
        r@ == "No token found for this DRACOON url: "@ + target@ + "."@,
{
    let r = String::from_str("No token found for this DRACOON url: ").concat(target).concat(".");
    assert(r@ =~= "No token found for this DRACOON url: "@ + target@ + "."@);
    r
}

/// The first line shown for a stored refresh token.
pub fn token_stored_line(target: &str) -> (r: String)
    ensures
        r@ == "► Token stored for: "@ + target@,
{
    String::from_str("► Token stored for: ").concat(target)
}

/// The user line shown for a stored refresh token.
pub fn user_line(first_name: &str, last_name: &str) -> (r: String)
    ensures
        r@ == "► User: "@ + first_name@ + " "@ + last_name@,
{
    let r = String::from_str("► User: ").concat(first_name).concat(" ").concat(last_name);
    assert(r@ =~= "► User: "@ + first_name@ + " "@ + last_name@);
    r
}

/// The email line shown for a stored refresh token; an absent email is
/// shown as not available.
pub fn email_line(email: Option<String>) -> (r: String)
    ensures
        r@ == "► Email: "@ + (match email {
            Some(e) => e@,
            None => "N/A"@,
        }),
{
    match email {
        Some(e) => String::from_str("► Email: ").concat(e.as_str()),
        None => String::from_str("► Email: ").concat("N/A"),
    }
}

/// The username line shown for a stored refresh token.
pub fn username_line(user_name: &str) -> (r: String)
    ensures
        r@ == "► Username: "@ + user_name@,
{
    String::from_str("► Username: ").concat(user_name)
}

/// The confirmation shown after a refresh token was removed.
pub fn token_removed_message(target: &str) -> (r: String)
    ensures
        r@ == "► Token removed for "@ + target@,
{
    String::from_str("► Token removed for ").concat(target)
}

/// `s` with every occurrence of the encryption-namespace suffix removed
/// from its end.
pub open spec fn trim_crypto_suffix(s: Seq<char>) -> Seq<char>
    decreases s.len(),
{
    if s.len() >= 7 && s.subrange(s.len() - 7, s.len() as int) == "-crypto"@ {
        trim_crypto_suffix(s.subrange(0, s.len() - 7))
    } else {
        s
    }
}

/// Character-wise suffix test.
pub fn str_ends_with(s: &str, suffix: &str) -> (r: bool)
    ensures
        r == (s@.len() >= suffix@.len() && s@.subrange(
            s@.len() - suffix@.len(),
            s@.len() as int,
        ) == suffix@),
{
    let n = suffix.unicode_len();
    let m = s.unicode_len();
    if m < n {
        return false;
    }
    let mut i: usize = 0;
    while i < n
        invariant
            0 <= i <= n,
            n == suffix@.len(),
            m == s@.len(),
            n <= m,
            forall|j: int| 0 <= j < i ==> s@[m - n + j] == suffix@[j],
        decreases n - i,
    {
        if s.get_char(m - n + i) != suffix.get_char(i) {
            assert(s@.subrange(m - n, m as int)[i as int] != suffix@[i as int]);
            return false;
        }
        i += 1;
    }
    assert(s@.subrange(m - n, m as int) =~= suffix@);
    true
}

/// Strips every encryption-namespace suffix from the end of the target,
/// per `trim_crypto_suffix`.
pub fn trim_crypto(target: &str) -> (r: String)
    ensures
        r@ == trim_crypto_suffix(target@),
{
    proof {
        reveal_strlit("-crypto");
    }
    let mut cur: String = target.to_owned();
    while str_ends_with(cur.as_str(), "-crypto")
        invariant
            trim_crypto_suffix(cur@) == trim_crypto_suffix(target@),
            "-crypto"@.len() == 7,
        decreases cur@.len(),
    {
        let len = cur.as_str().unicode_len();
        let shorter = cur.as_str().substring_char(0, len - 7);
        cur = shorter.to_owned();
    }
    cur
}

/// The message shown for a stored encryption secret; the namespace suffix
/// is not part of what the operator sees.
pub fn secret_stored_message(target: &str) -> (r: String)
    ensures
        r@ == "► Encryption secret securely stored for "@ + trim_crypto_suffix(target@) + "."@,
{
    let trimmed = trim_crypto(target);
    let r = String::from_str("► Encryption secret securely stored for ").concat(
        trimmed.as_str(),
    ).concat(".");
    assert(r@ =~= "► Encryption secret securely stored for "@ + trim_crypto_suffix(target@)
        + "."@);
    r
}

/// The message shown when a target has no stored encryption secret.
pub fn no_secret_message() -> (r: String)
    ensures
        r@ == "No encryption secret found."@,
{
    String::from_str("No encryption secret found.")
}

/// The confirmation shown after an encryption secret was removed.
pub fn secret_removed_message(target: &str) -> (r: String)
    ensures
        r@ == "► Encryption secret removed for "@ + target@ + "."@,
{
    let r = String::from_str("► Encryption secret removed for ").concat(target).concat(".");
    assert(r@ =~= "► Encryption secret removed for "@ + target@ + "."@);
    r
}

/// The decision of the token-info command once the store was consulted: a
/// stored refresh token continues the flow; a missing one becomes the
/// formatted no-token notice together with an invalid-account error.
pub fn plan_token_info(lookup: Result<String, AppError>, target: &str) -> (r: Result<
    String,
    (String, AppError),
>)
    ensures
        lookup matches Ok(t) ==> r == Ok::<String, (String, AppError)>(t),
        lookup is Err ==> (r matches Err((line, e)) && e is InvalidAccount && exists|
            a: Seq<char>,
            b: Seq<char>,
        |
            line@ == a + "Error: "@ + b + " "@ + "No token found for this DRACOON url: "@ + target@
                + "."@),
{
    match lookup {
        Ok(token) => Ok(token),
        Err(_) => {
            let msg = no_token_message(target);
            let line = crate::strings::format_error_message(msg.as_str());
            proof {
                let (a, b) = choose|a: Seq<char>, b: Seq<char>|
                    line@ == a + "Error: "@ + b + " "@ + msg@;
                assert(line@ =~= a + "Error: "@ + b + " "@
                    + "No token found for this DRACOON url: "@ + target@ + "."@);
            }
            Err((line, AppError::InvalidAccount))
        },
    }
}

/// The four lines shown for a stored refresh token: the target, the user's
/// name, the email (or its absence), and the username — each verbatim.
pub fn user_info_lines(
    target: &str,
    first_name: &str,
    last_name: &str,
    email: Option<String>,
    user_name: &str,
) -> (r: Vec<String>)
    ensures
        r@.len() == 4,
        r@[0]@ == "► Token stored for: "@ + target@,
        r@[1]@ == "► User: "@ + first_name@ + " "@ + last_name@,
        r@[2]@ == "► Email: "@ + (match email {
            Some(e) => e@,
            None => "N/A"@,
        }),
        r@[3]@ == "► Username: "@ + user_name@,
{
    let mut lines: Vec<String> = Vec::new();
    lines.push(token_stored_line(target));
    lines.push(user_line(first_name, last_name));
    lines.push(email_line(email));
    lines.push(username_line(user_name));
    lines
}

/// The decision of the secret-info command once the store was consulted: a
/// present secret yields the stored-secret notice; a missing one becomes
/// the formatted no-secret notice together with an invalid-account error.
pub fn plan_secret_info(lookup: Result<String, AppError>, target: &str) -> (r: Result<
    String,
    (String, AppError),
>)
    ensures
        lookup is Ok ==> (r matches Ok(line) && line@
            == "► Encryption secret securely stored for "@ + trim_crypto_suffix(target@) + "."@),
        lookup is Err ==> (r matches Err((line, e)) && e is InvalidAccount && exists|
            a: Seq<char>,
            b: Seq<char>,
        | line@ == a + "Error: "@ + b + " "@ + "No encryption secret found."@),
{
    match lookup {
        Ok(_) => Ok(secret_stored_message(target)),
        Err(_) => {
            let msg = no_secret_message();
            let line = crate::strings::format_error_message(msg.as_str());
            Err((line, AppError::InvalidAccount))
        },
    }
}

/// Whether a removal goes ahead: only an explicitly confirmed prompt
/// removes the stored token; a declined, dismissed or failed prompt leaves
/// it in place.
pub fn should_remove_token(confirmation: Option<bool>) -> (r: bool)
    ensures
        r == (confirmation matches Some(true)),
{
    match confirmation {
        Some(answer) => answer,
        None => false,
    }
}

/// The message shown when no platform credential store is usable.
pub fn no_store_message() -> (r: String)
    ensures
        r@ == "Secure storage for credentials not available on this platform."@,
{
    String::from_str("Secure storage for credentials not available on this platform.")
}

} // verus!
