use awsso::{
    get_credentials, refresh_creds, start_refresh, waits_for, CachedToken, RefreshAction,
    RefreshError, RefreshEvent, RefreshState, RoleCredentials,
};

const CONFIG: &str = "[profile team-prod]
region = eu-west-1
sso_account_id = 123456789012
sso_role_name = Admin
sso_start_url = https://x.awsapps.com/start
sso_region = us-east-1
";

const CREDENTIALS: &str = "[other]
region = eu-central-1
aws_access_key_id = oak
aws_secret_access_key = osk
aws_session_token = ost
";

fn expected_cache_path() -> String {
    let mut hasher = sha1_smol::Sha1::new();
    hasher.update(b"https://x.awsapps.com/start");
    format!(".aws/sso/cache/{}.json", hasher.digest())
}

fn step(state: RefreshState, event: RefreshEvent) -> (RefreshState, RefreshAction) {
    assert!(waits_for(&state, &event));
    refresh_creds(state, event)
}

fn resolve(query: &str, login: bool) -> RefreshState {
    let (state, action) = start_refresh(query.to_string(), login);
    assert!(matches!(action, RefreshAction::ReadConfig));
    let (state, action) = step(state, RefreshEvent::ConfigRead { text: CONFIG.to_string() });
    if login {
        match action {
            RefreshAction::RunLogin { profile } => assert_eq!(profile, "team-prod"),
            _ => panic!("expected a login"),
        }
        let (state, action) = step(state, RefreshEvent::LoginStarted { started: true });
        match action {
            RefreshAction::ReadCache { path } => assert_eq!(path, expected_cache_path()),
            _ => panic!("expected a cache read"),
        }
        state
    } else {
        match action {
            RefreshAction::ReadCache { path } => assert_eq!(path, expected_cache_path()),
            _ => panic!("expected a cache read"),
        }
        state
    }
}

#[test]
fn refresh_writes_exchanged_credentials() {
    let state = resolve("prod", false);
    let now = chrono::Utc::now();
    let token = CachedToken {
        access_token: "access".to_string(),
        expires_at: (now + chrono::Duration::hours(1)).to_rfc3339(),
    };
    let (state, action) =
        step(state, RefreshEvent::CacheRead { token: Some(token), now: now.timestamp() });
    match action {
        RefreshAction::Exchange { request } => {
            assert_eq!(request.region, "eu-west-1");
            assert_eq!(request.role_name, "Admin");
            assert_eq!(request.account_id, "123456789012");
            assert_eq!(request.access_token, Some("access".to_string()));
        }
        _ => panic!("expected an exchange"),
    }
    let creds = RoleCredentials {
        access_key_id: Some("ak".to_string()),
        secret_access_key: Some("sk".to_string()),
        session_token: Some("st".to_string()),
    };
    let (state, action) = step(state, RefreshEvent::Exchanged { outcome: Some(creds) });
    assert!(matches!(action, RefreshAction::ReadCredentials));
    let (state, action) =
        step(state, RefreshEvent::CredentialsRead { text: CREDENTIALS.to_string() });
    let text = match action {
        RefreshAction::WriteCredentials { text } => text,
        _ => panic!("expected a write"),
    };
    let store = get_credentials(&text).ok().unwrap();
    assert_eq!(store.len(), 2);
    assert_eq!(store[0].0, "other");
    assert_eq!(store[0].1.aws_access_key_id, "oak");
    assert_eq!(store[1].0, "team-prod");
    assert_eq!(store[1].1.region, "us-east-1");
    assert_eq!(store[1].1.aws_access_key_id, "ak");
    assert_eq!(store[1].1.aws_secret_access_key, "sk");
    assert_eq!(store[1].1.aws_session_token, "st");
    let (state, action) = step(state, RefreshEvent::Written { ok: true });
    assert!(matches!(state, RefreshState::Done));
    assert!(matches!(action, RefreshAction::Finish));
}

#[test]
fn missing_cache_and_rejected_exchange_write_nothing() {
    let state = resolve("prod", false);
    let (state, action) = step(state, RefreshEvent::CacheRead { token: None, now: 0 });
    match action {
        RefreshAction::Exchange { request } => assert_eq!(request.access_token, None),
        _ => panic!("expected an exchange"),
    }
    let (state, action) = step(state, RefreshEvent::Exchanged { outcome: None });
    assert!(matches!(
        action,
        RefreshAction::Fail { error: RefreshError::ExchangeFailure }
    ));
    assert!(matches!(state, RefreshState::Failed { error: RefreshError::ExchangeFailure }));
    assert!(!waits_for(&state, &RefreshEvent::CredentialsRead { text: CREDENTIALS.to_string() }));
}

#[test]
fn stale_cached_token_stops_the_refresh() {
    let state = resolve("team", true);
    let now = chrono::Utc::now();
    let token = CachedToken {
        access_token: "access".to_string(),
        expires_at: (now - chrono::Duration::seconds(1)).to_rfc3339(),
    };
    let (_, action) =
        step(state, RefreshEvent::CacheRead { token: Some(token), now: now.timestamp() });
    assert!(matches!(action, RefreshAction::Fail { error: RefreshError::Stale }));
}

#[test]
fn incomplete_answer_is_an_exchange_failure() {
    let state = resolve("prod", false);
    let (state, _) = step(state, RefreshEvent::CacheRead { token: None, now: 0 });
    let creds = RoleCredentials {
        access_key_id: Some("ak".to_string()),
        secret_access_key: None,
        session_token: Some("st".to_string()),
    };
    let (_, action) = step(state, RefreshEvent::Exchanged { outcome: Some(creds) });
    assert!(matches!(action, RefreshAction::Fail { error: RefreshError::ExchangeFailure }));
}

#[test]
fn unknown_profile_and_failed_login() {
    let (state, _) = start_refresh("staging".to_string(), false);
    let (_, action) = step(state, RefreshEvent::ConfigRead { text: CONFIG.to_string() });
    assert!(matches!(action, RefreshAction::Fail { error: RefreshError::NotFound }));

    let (state, _) = start_refresh("prod".to_string(), true);
    let (state, _) = step(state, RefreshEvent::ConfigRead { text: CONFIG.to_string() });
    let (_, action) = step(state, RefreshEvent::LoginStarted { started: false });
    assert!(matches!(
        action,
        RefreshAction::Fail { error: RefreshError::ExternalProcessFailure }
    ));
}

#[test]
fn failed_write_is_an_io_failure() {
    let (_, action) = refresh_creds(RefreshState::Persist, RefreshEvent::Written { ok: false });
    assert!(matches!(action, RefreshAction::Fail { error: RefreshError::IoFailure }));
}
