use vstd::prelude::*;

pub mod auth;
pub mod config;
pub mod credentials;
pub mod dispatch;
pub mod discovery;
pub mod errors;
pub mod revert;
pub mod models;
pub mod strings;
pub mod urls;

verus! {

/// The version banner the tool prints: the tool's name and version, then
/// its home.
pub fn get_version() -> (r: String)
    ensures
        r@
            == "🚀 remove-expiration-date 0.1.0\n▶︎ https://github.com/semtisem/remove-expiration-date"@,
{
    String::from_str(
        "🚀 remove-expiration-date 0.1.0\n▶︎ https://github.com/semtisem/remove-expiration-date",
    )
}

} // verus!
