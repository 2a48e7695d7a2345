use vstd::prelude::*;

use crate::errors::AppError;
use crate::models::PasswordAuth;
use crate::urls::spec_parse_base_url;
use crate::urls::parse_base_url;

verus! {

/// A connected session: the tokens obtained from a successful exchange and
/// the client identity pair they belong to. The refresh token is the only
/// artifact the cascade persists; the short-lived access token is held and
/// implicitly renewed by the transport, which may leave it empty here.
pub struct Session {
    pub access_token: String,
    pub refresh_token: String,
    pub client_id: String,
    pub client_secret: String,
}

/// The credential strategy chosen for a run. Exactly one is attempted
/// first; only a failed refresh falls through, to the interactive flow.
pub enum AuthStrategy {
    ExplicitPassword(PasswordAuth),
    StoredRefreshToken(String),
    InteractiveAuthCode,
}

/// What one token exchange came back with.
pub enum ExchangeOutcome {
    Success(Session),
    Failure(AppError),
}

/// A credential-store operation the cascade asks for alongside a
/// transition.
pub enum StoreOp {
    PersistRefreshToken(String),
    DeleteStoredToken,
}

/// Where the cascade stands after an exchange: connected (with an optional
/// store operation to perform), falling through to another strategy (with
/// an optional store operation), or failed for good.
pub enum CascadeStep {
    Connected(Session, Option<StoreOp>),
    Fallback(AuthStrategy, Option<StoreOp>),
    Failed(AppError),
}

/// The strategy chosen for a run, in priority order: explicitly supplied
/// credentials win outright; otherwise a stored refresh token, if the
/// credential store is usable and holds one; otherwise the interactive
/// authorization-code flow. An unusable credential store without explicit
/// credentials is fatal.
pub open spec fn spec_choose_strategy(
    password_auth: Option<PasswordAuth>,
    store_available: bool,
    stored_token: Option<String>,
) -> Result<AuthStrategy, AppError> {
    match password_auth {
        Some(auth) => Ok(AuthStrategy::ExplicitPassword(auth)),
        None => if !store_available {
            Err(AppError::CredentialStorageFailed)
        } else {
            match stored_token {
                Some(token) => Ok(AuthStrategy::StoredRefreshToken(token)),
                None => Ok(AuthStrategy::InteractiveAuthCode),
            }
        },
    }
}

/// Picks the strategy for a run, exactly as `spec_choose_strategy` lays it
/// down.
pub fn choose_strategy(
    password_auth: Option<PasswordAuth>,
    store_available: bool,
    stored_token: Option<String>,
) -> (r: Result<AuthStrategy, AppError>)
    ensures
        r == spec_choose_strategy(password_auth, store_available, stored_token),
{
    match password_auth {
        Some(auth) => Ok(AuthStrategy::ExplicitPassword(auth)),
        None => {
            if !store_available {
                Err(AppError::CredentialStorageFailed)
            } else {
                match stored_token {
                    Some(token) => Ok(AuthStrategy::StoredRefreshToken(token)),
                    None => Ok(AuthStrategy::InteractiveAuthCode),
                }
            }
        },
    }
}

/// The transition the cascade makes once the chosen strategy's exchange has
/// come back.
///
/// Explicit credentials are ephemeral: success connects without persisting
/// anything, failure is terminal with no fallback. A successful refresh
/// re-persists the (possibly rotated) refresh token; a failed refresh is
/// recovered locally — the stale entry is deleted and the interactive flow
/// is next. A successful interactive exchange persists its refresh token;
/// a failed one is terminal.
pub open spec fn spec_after_exchange(
    strategy: AuthStrategy,
    outcome: ExchangeOutcome,
) -> CascadeStep {
    match strategy {
        AuthStrategy::ExplicitPassword(_) => match outcome {
            ExchangeOutcome::Success(session) => CascadeStep::Connected(session, None),
            ExchangeOutcome::Failure(e) => CascadeStep::Failed(e),
        },
        AuthStrategy::StoredRefreshToken(_) => match outcome {
            ExchangeOutcome::Success(session) => CascadeStep::Connected(
                session,
                Some(StoreOp::PersistRefreshToken(session.refresh_token)),
            ),
            ExchangeOutcome::Failure(_) => CascadeStep::Fallback(
                AuthStrategy::InteractiveAuthCode,
                Some(StoreOp::DeleteStoredToken),
            ),
        },
        AuthStrategy::InteractiveAuthCode => match outcome {
            ExchangeOutcome::Success(session) => CascadeStep::Connected(
                session,
                Some(StoreOp::PersistRefreshToken(session.refresh_token)),
            ),
            ExchangeOutcome::Failure(e) => CascadeStep::Failed(e),
        },
    }
}

/// Makes the cascade's transition, exactly as `spec_after_exchange` lays it
/// down.
pub fn after_exchange(strategy: AuthStrategy, outcome: ExchangeOutcome) -> (step: CascadeStep)
    ensures
        step == spec_after_exchange(strategy, outcome),
{
    match strategy {
        AuthStrategy::ExplicitPassword(_) => {
            match outcome {
                ExchangeOutcome::Success(session) => CascadeStep::Connected(session, None),
                ExchangeOutcome::Failure(e) => CascadeStep::Failed(e),
            }
        },
        AuthStrategy::StoredRefreshToken(_) => {
            match outcome {
                ExchangeOutcome::Success(session) => {
                    let token = session.refresh_token.clone();
                    CascadeStep::Connected(session, Some(StoreOp::PersistRefreshToken(token)))
                },
                ExchangeOutcome::Failure(_) => CascadeStep::Fallback(
                    AuthStrategy::InteractiveAuthCode,
                    Some(StoreOp::DeleteStoredToken),
                ),
            }
        },
        AuthStrategy::InteractiveAuthCode => {
            match outcome {
                ExchangeOutcome::Success(session) => {
                    let token = session.refresh_token.clone();
                    CascadeStep::Connected(session, Some(StoreOp::PersistRefreshToken(token)))
                },
                ExchangeOutcome::Failure(e) => CascadeStep::Failed(e),
            }
        },
    }
}

/// A persistence failure after a successful exchange is tolerated: the
/// in-memory session remains usable and the run goes on with it.
pub fn finalize_connected(session: Session, persist_result: Result<(), AppError>) -> (r: Result<
    Session,
    AppError,
>)
    ensures
        r matches Ok(s) && s == session,
{
    let _ = persist_result;
    Ok(session)
}

/// Law: given explicit credentials the password strategy is chosen —
/// whatever the store holds — and a failed password exchange is terminal:
/// the cascade fails without attempting any fallback.
pub proof fn lemma_password_priority_no_fallback(
    auth: PasswordAuth,
    store_available: bool,
    stored_token: Option<String>,
    e: AppError,
)
    ensures
        spec_choose_strategy(Some(auth), store_available, stored_token) == Ok::<
            AuthStrategy,
            AppError,
        >(AuthStrategy::ExplicitPassword(auth)),
        spec_after_exchange(AuthStrategy::ExplicitPassword(auth), ExchangeOutcome::Failure(e))
            == CascadeStep::Failed(e),
{
}

/// Law: with no explicit credentials and a stored refresh token, the
/// refresh strategy is chosen; a successful refresh connects, re-persists
/// the (possibly rotated) refresh token, and never falls through to the
/// interactive authorization-code flow.
pub proof fn lemma_refresh_success_no_prompt(token: String, session: Session)
    ensures
        spec_choose_strategy(None, true, Some(token)) == Ok::<AuthStrategy, AppError>(
            AuthStrategy::StoredRefreshToken(token),
        ),
        spec_after_exchange(
            AuthStrategy::StoredRefreshToken(token),
            ExchangeOutcome::Success(session),
        ) == CascadeStep::Connected(
            session,
            Some(StoreOp::PersistRefreshToken(session.refresh_token)),
        ),
        !(spec_after_exchange(
            AuthStrategy::StoredRefreshToken(token),
            ExchangeOutcome::Success(session),
        ) is Fallback),
{
}

/// Law: with no explicit credentials and a stored refresh token that the
/// remote rejects, the stale entry is deleted and the interactive
/// authorization-code flow is invoked — exactly once: whatever that single
/// interactive exchange comes back with, the cascade either connects or
/// fails, and never falls through again.
pub proof fn lemma_stale_refresh_falls_through_once(
    token: String,
    refresh_error: AppError,
    interactive: ExchangeOutcome,
)
    ensures
        spec_choose_strategy(None, true, Some(token)) == Ok::<AuthStrategy, AppError>(
            AuthStrategy::StoredRefreshToken(token),
        ),
        spec_after_exchange(
            AuthStrategy::StoredRefreshToken(token),
            ExchangeOutcome::Failure(refresh_error),
        ) == CascadeStep::Fallback(
            AuthStrategy::InteractiveAuthCode,
            Some(StoreOp::DeleteStoredToken),
        ),
        !(spec_after_exchange(AuthStrategy::InteractiveAuthCode, interactive) is Fallback),
{
}

/// How many parallel token slots the transport is asked to pre-authorize:
/// several for transfer scenarios, one otherwise.
pub fn token_rotation(is_transfer: bool) -> (r: u8)
    ensures
        r == if is_transfer { 5u8 } else { 1u8 },
{
    if is_transfer { 5 } else { 1 }
}

/// Everything the transport needs to build a client for a run.
pub struct SessionConfig {
    pub base_url: String,
    pub client_id: String,
    pub client_secret: String,
    pub token_rotation: u8,
    pub user_agent: String,
}

/// Assembles the transport configuration for a run: the normalized base
/// URL, the baked-in client identity, the token-rotation hint and the user
/// agent. The one rejected input is an invalid target address.
pub fn build_session_config(url_path: String, is_transfer: bool) -> (r: Result<
    SessionConfig,
    AppError,
>)
    ensures
        r is Ok <==> spec_parse_base_url(url_path@) is Ok,
        r is Ok ==> {
            let c = r->Ok_0;
            &&& c.base_url@ == spec_parse_base_url(url_path@)->Ok_0
            &&& c.client_id@ == "syncoon-client-id"@
            &&& c.client_secret@ == "syncoon-client-secret"@
            &&& c.token_rotation == if is_transfer { 5u8 } else { 1u8 }
            &&& c.user_agent@ == "syncoon|0.1.0"@
        },
        r is Err ==> (r->Err_0 matches AppError::InvalidUrl(u) && u@ == spec_parse_base_url(
            url_path@,
        )->Err_0),
{
    let (client_id, client_secret) = crate::credentials::get_client_credentials();
    let base_url = match parse_base_url(url_path) {
        Ok(u) => u,
        Err(e) => {
            return Err(e);
        },
    };
    let rotation = token_rotation(is_transfer);
    Ok(
        SessionConfig {
            base_url,
            client_id,
            client_secret,
            token_rotation: rotation,
            user_agent: String::from_str("syncoon|0.1.0"),
        },
    )
}

} // verus!
