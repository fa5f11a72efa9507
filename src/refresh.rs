//! The refresh of one profile's credentials, as a machine that decides each
//! step from what the previous step brought back. The caller performs each
//! action (reading a file, starting the login program, calling the token
//! exchange, writing a file) and reports its outcome as the next event.
use vstd::prelude::*;
use vstd::string::*;

use crate::config::{aws_config, config_universe, resolve_profile, ConfigSection, ProfileModel};
use crate::credentials::{
    get_credentials, merge_credentials, store_of, store_sections, upsert, write_credentials,
    CredentialModel, CredentialsSection,
};
use crate::error::RefreshError;
use crate::inifile::{ini_parsed, ini_rendered};
use crate::text::is_substring;
use crate::token::{cache_path_of, rfc3339_seconds, validate_token, CachedToken};

verus! {

/// What is sent to the token exchange.
pub struct ExchangeRequest {
    pub region: String,
    pub role_name: String,
    pub account_id: String,
    pub access_token: Option<String>,
}

/// What the token exchange answered; a field it left out is `None`.
pub struct RoleCredentials {
    pub access_key_id: Option<String>,
    pub secret_access_key: Option<String>,
    pub session_token: Option<String>,
}

/// Where a refresh stands, and what it waits for.
pub enum RefreshState {
    /// Waits for the text of the profile store.
    Resolve { query: String, login: bool },
    /// Waits to hear whether the login program started.
    Login { section: ConfigSection },
    /// Waits for the cached token, if any, and the current instant.
    Lookup { section: ConfigSection },
    /// Waits for the answer of the token exchange.
    Exchange { section: ConfigSection },
    /// Waits for the text of the credentials store.
    Merge { name: String, entry: CredentialsSection },
    /// Waits to hear whether the new credentials store was written.
    Persist,
    Done,
    Failed { error: RefreshError },
}

/// The outcome of the last action.
pub enum RefreshEvent {
    ConfigRead { text: String },
    LoginStarted { started: bool },
    /// The token read from the cache file (none where the file is absent or
    /// unreadable as a token) and the current instant in Unix seconds.
    CacheRead { token: Option<CachedToken>, now: i64 },
    /// The exchange's answer, or none where the call failed.
    Exchanged { outcome: Option<RoleCredentials> },
    CredentialsRead { text: String },
    Written { ok: bool },
}

/// What the caller is to do next.
pub enum RefreshAction {
    ReadConfig,
    /// Start the interactive login for this profile name.
    RunLogin { profile: String },
    /// Read the token cache file at this path under the home directory.
    ReadCache { path: String },
    Exchange { request: ExchangeRequest },
    ReadCredentials,
    /// Replace the credentials store with this text.
    WriteCredentials { text: String },
    Finish,
    Fail { error: RefreshError },
}

/// Whether a state waits for this kind of event.
pub open spec fn fits(state: RefreshState, event: RefreshEvent) -> bool {
    match state {
        RefreshState::Resolve { .. } => event is ConfigRead,
        RefreshState::Login { .. } => event is LoginStarted,
        RefreshState::Lookup { .. } => event is CacheRead,
        RefreshState::Exchange { .. } => event is Exchanged,
        RefreshState::Merge { .. } => event is CredentialsRead,
        RefreshState::Persist => event is Written,
        _ => false,
    }
}

/// Whether `state` waits for `event`.
pub fn waits_for(state: &RefreshState, event: &RefreshEvent) -> (r: bool)
    ensures
        r == fits(*state, *event),
{
    match state {
        RefreshState::Resolve { .. } => matches!(event, RefreshEvent::ConfigRead { .. }),
        RefreshState::Login { .. } => matches!(event, RefreshEvent::LoginStarted { .. }),
        RefreshState::Lookup { .. } => matches!(event, RefreshEvent::CacheRead { .. }),
        RefreshState::Exchange { .. } => matches!(event, RefreshEvent::Exchanged { .. }),
        RefreshState::Merge { .. } => matches!(event, RefreshEvent::CredentialsRead { .. }),
        RefreshState::Persist => matches!(event, RefreshEvent::Written { .. }),
        _ => false,
    }
}

/// A refresh stopped with `e`.
pub open spec fn failed_with(r: (RefreshState, RefreshAction), e: RefreshError) -> bool {
    r.0 == RefreshState::Failed { error: e } && r.1 == RefreshAction::Fail { error: e }
}

/// The first profile whose name contains `query`, if any.
pub open spec fn is_first_match(u: Seq<ProfileModel>, query: Seq<char>, i: int) -> bool {
    &&& 0 <= i < u.len()
    &&& is_substring(query, u[i].name)
    &&& forall|j: int| 0 <= j < i ==> !is_substring(query, #[trigger] u[j].name)
}

/// The request sent for a profile and an access token.
pub open spec fn request_fits(q: ExchangeRequest, p: ProfileModel, token: Option<Seq<char>>) -> bool {
    &&& q.region@ == p.region
    &&& q.role_name@ == p.sso_role_name
    &&& q.account_id@ == p.sso_account_id
    &&& match (q.access_token, token) {
        (Some(a), Some(b)) => a@ == b,
        (None, None) => true,
        _ => false,
    }
}

/// The entry written for a profile from a complete answer of the exchange:
/// the profile's sign-on region and the three credentials.
pub open spec fn entry_fits(e: CredentialModel, p: ProfileModel, c: RoleCredentials) -> bool {
    &&& c.access_key_id matches Some(a) && e.access_key_id == a@
    &&& c.secret_access_key matches Some(s) && e.secret_access_key == s@
    &&& c.session_token matches Some(t) && e.session_token == t@
    &&& e.region == p.sso_region
}

/// Whether the exchange answered all three credentials.
pub open spec fn complete(c: RoleCredentials) -> bool {
    c.access_key_id is Some && c.secret_access_key is Some && c.session_token is Some
}

/// Starts a refresh of the profile whose name contains `query`; with
/// `login`, the interactive login runs before the token is looked up.
pub fn start_refresh(query: String, login: bool) -> (r: (RefreshState, RefreshAction))
    ensures
        r.0 matches RefreshState::Resolve { query: q, login: l } && q@ == query@ && l == login,
        r.1 is ReadConfig,
{
    (RefreshState::Resolve { query, login }, RefreshAction::ReadConfig)
}

/// The request for the token exchange: the profile's region, role and
/// account, and the access token if there is one.
pub fn exchange_request(section: &ConfigSection, access_token: Option<String>) -> (r: ExchangeRequest)
    ensures
        request_fits(r, section@, match access_token { Some(a) => Some(a@), None => None }),
{
    ExchangeRequest {
        region: section.profile.region.clone(),
        role_name: section.profile.sso_role_name.clone(),
        account_id: section.profile.sso_account_id.clone(),
        access_token,
    }
}

/// The entry to store for a profile from the exchange's answer; an answer
/// that lacks one of the three credentials is an `ExchangeFailure`.
pub fn exchanged_entry(section: &ConfigSection, creds: RoleCredentials) -> (r: Result<CredentialsSection, RefreshError>)
    ensures
        complete(creds) ==> (r matches Ok(e) && entry_fits(e@, section@, creds)),
        !complete(creds) ==> r == Err::<CredentialsSection, RefreshError>(RefreshError::ExchangeFailure),
{
    let ghost c = creds;
    match (creds.access_key_id, creds.secret_access_key, creds.session_token) {
        (Some(a), Some(s), Some(t)) => Ok(
            CredentialsSection {
                region: section.profile.sso_region.clone(),
                aws_access_key_id: a,
                aws_secret_access_key: s,
                aws_session_token: t,
            },
        ),
        _ => Err(RefreshError::ExchangeFailure),
    }
}

/// The text of the credentials store after setting the entry for `name`:
/// the store read from `text`, with that entry replaced or added, and every
/// other entry as it was.
pub fn merged_store_text(text: &str, name: String, entry: CredentialsSection) -> (r: Result<String, RefreshError>)
    ensures
        ini_parsed(text@) is None ==> r == Err::<String, RefreshError>(RefreshError::Malformed),
        ini_parsed(text@) matches Some(secs) ==> (r matches Ok(t) && t@ == ini_rendered(
            store_sections(upsert(store_of(secs), name@, entry@)),
        )),
{
    let mut store = match get_credentials(text) {
        Ok(s) => s,
        Err(e) => return Err(e),
    };
    merge_credentials(&mut store, name, entry);
    Ok(write_credentials(&store))
}

/// One step of a refresh: from the state and the outcome of the last
/// action, the next state and the next action.
///
/// The profile is the first of the profile store, in file order, whose name
/// contains the query. A cached token is used only while its expiry lies
/// strictly after the instant reported with it; without one the exchange
/// goes ahead with no token. The credentials store is written only after a
/// complete answer of the exchange, and then whole: read, with the one
/// entry set, every other entry kept.
pub fn refresh_creds(state: RefreshState, event: RefreshEvent) -> (r: (RefreshState, RefreshAction))
    requires
        fits(state, event),
    ensures
        (state, event) matches (RefreshState::Resolve { query, login }, RefreshEvent::ConfigRead { text }) ==>
            match ini_parsed(text@) {
                None => failed_with(r, RefreshError::Malformed),
                Some(secs) => {
                    let u = config_universe(secs);
                    if exists|i: int| is_first_match(u, query@, i) {
                        exists|i: int| #![auto] is_first_match(u, query@, i) && if login {
                            (r.0 matches RefreshState::Login { section } && section@ == u[i])
                            && (r.1 matches RefreshAction::RunLogin { profile } && profile@ == u[i].name)
                        } else {
                            (r.0 matches RefreshState::Lookup { section } && section@ == u[i])
                            && (r.1 matches RefreshAction::ReadCache { path } && path@ == cache_path_of(u[i].sso_start_url))
                        }
                    } else {
                        failed_with(r, RefreshError::NotFound)
                    }
                },
            },
        (state, event) matches (RefreshState::Login { section }, RefreshEvent::LoginStarted { started }) ==>
            if started {
                (r.0 matches RefreshState::Lookup { section: s } && s@ == section@)
                && (r.1 matches RefreshAction::ReadCache { path } && path@ == cache_path_of(section@.sso_start_url))
            } else {
                failed_with(r, RefreshError::ExternalProcessFailure)
            },
        (state, event) matches (RefreshState::Lookup { section }, RefreshEvent::CacheRead { token, now }) ==>
            match token {
                None => (r.0 matches RefreshState::Exchange { section: s } && s@ == section@)
                    && (r.1 matches RefreshAction::Exchange { request } && request_fits(request, section@, None)),
                Some(t) => match rfc3339_seconds(t.expires_at@) {
                    Some(e) => if e > now {
                        (r.0 matches RefreshState::Exchange { section: s } && s@ == section@)
                        && (r.1 matches RefreshAction::Exchange { request }
                            && request_fits(request, section@, Some(t.access_token@)))
                    } else {
                        failed_with(r, RefreshError::Stale)
                    },
                    None => failed_with(r, RefreshError::Malformed),
                },
            },
        (state, event) matches (RefreshState::Exchange { section }, RefreshEvent::Exchanged { outcome }) ==>
            match outcome {
                Some(c) => if complete(c) {
                    (r.0 matches RefreshState::Merge { name, entry } && name@ == section@.name
                        && entry_fits(entry@, section@, c))
                    && r.1 is ReadCredentials
                } else {
                    failed_with(r, RefreshError::ExchangeFailure)
                },
                None => failed_with(r, RefreshError::ExchangeFailure),
            },
        (state, event) matches (RefreshState::Merge { name, entry }, RefreshEvent::CredentialsRead { text }) ==>
            match ini_parsed(text@) {
                None => failed_with(r, RefreshError::Malformed),
                Some(secs) => r.0 is Persist && (r.1 matches RefreshAction::WriteCredentials { text: t }
                    && t@ == ini_rendered(store_sections(upsert(store_of(secs), name@, entry@)))),
            },
        (state, event) matches (RefreshState::Persist, RefreshEvent::Written { ok }) ==>
            if ok {
                r.0 is Done && r.1 is Finish
            } else {
                failed_with(r, RefreshError::IoFailure)
            },
        r.1 is WriteCredentials ==> state is Merge,
{
    match (state, event) {
        (RefreshState::Resolve { query, login }, RefreshEvent::ConfigRead { text }) => {
            let mut profiles = match aws_config(text.as_str()) {
                Ok(p) => p,
                Err(e) => return (RefreshState::Failed { error: e }, RefreshAction::Fail { error: e }),
            };
            let i = match resolve_profile(&profiles, query.as_str()) {
                Ok(i) => i,
                Err(e) => {
                    return (RefreshState::Failed { error: e }, RefreshAction::Fail { error: e });
                },
            };
            let ghost u = config_universe(ini_parsed(text@)->Some_0);
            assert(is_first_match(u, query@, i as int));
            let section = profiles.remove(i);
            if login {
                let profile = section.name.clone();
                (RefreshState::Login { section }, RefreshAction::RunLogin { profile })
            } else {
                let path = section.sso_cache_path();
                (RefreshState::Lookup { section }, RefreshAction::ReadCache { path })
            }
        },
        (RefreshState::Login { section }, RefreshEvent::LoginStarted { started }) => {
            if started {
                let path = section.sso_cache_path();
                (RefreshState::Lookup { section }, RefreshAction::ReadCache { path })
            } else {
                let e = RefreshError::ExternalProcessFailure;
                (RefreshState::Failed { error: e }, RefreshAction::Fail { error: e })
            }
        },
        (RefreshState::Lookup { section }, RefreshEvent::CacheRead { token, now }) => {
            match validate_token(token, now) {
                Ok(access_token) => {
                    let request = exchange_request(&section, access_token);
                    (RefreshState::Exchange { section }, RefreshAction::Exchange { request })
                },
                Err(e) => (RefreshState::Failed { error: e }, RefreshAction::Fail { error: e }),
            }
        },
        (RefreshState::Exchange { section }, RefreshEvent::Exchanged { outcome }) => {
            let creds = match outcome {
                Some(c) => c,
                None => {
                    let e = RefreshError::ExchangeFailure;
                    return (RefreshState::Failed { error: e }, RefreshAction::Fail { error: e });
                },
            };
            match exchanged_entry(&section, creds) {
                Ok(entry) => (RefreshState::Merge { name: section.name, entry }, RefreshAction::ReadCredentials),
                Err(e) => (RefreshState::Failed { error: e }, RefreshAction::Fail { error: e }),
            }
        },
        (RefreshState::Merge { name, entry }, RefreshEvent::CredentialsRead { text }) => {
            match merged_store_text(text.as_str(), name, entry) {
                Ok(t) => (RefreshState::Persist, RefreshAction::WriteCredentials { text: t }),
                Err(e) => (RefreshState::Failed { error: e }, RefreshAction::Fail { error: e }),
            }
        },
        (RefreshState::Persist, RefreshEvent::Written { ok }) => {
            if ok {
                (RefreshState::Done, RefreshAction::Finish)
            } else {
                let e = RefreshError::IoFailure;
                (RefreshState::Failed { error: e }, RefreshAction::Fail { error: e })
            }
        },
        (state, _) => (state, RefreshAction::Finish),
    }
}

} // verus!
