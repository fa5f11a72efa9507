use awsso::{aws_config, check_expiry, validate_token, CachedToken, RefreshError};

fn token(expires_at: String) -> Option<CachedToken> {
    Some(CachedToken { access_token: "tok".to_string(), expires_at })
}

#[test]
fn expiry_one_second_either_side() {
    assert_eq!(check_expiry(Some(99), 100), Err(RefreshError::Stale));
    assert_eq!(check_expiry(Some(100), 100), Err(RefreshError::Stale));
    assert_eq!(check_expiry(Some(101), 100), Ok(()));
    assert_eq!(check_expiry(None, 100), Err(RefreshError::Malformed));
}

#[test]
fn stale_token_is_rejected() {
    let now = chrono::Utc::now();
    let past = (now - chrono::Duration::seconds(1)).to_rfc3339();
    assert_eq!(validate_token(token(past), now.timestamp()), Err(RefreshError::Stale));
}

#[test]
fn fresh_token_is_accepted() {
    let now = chrono::Utc::now();
    let future = (now + chrono::Duration::seconds(1)).to_rfc3339();
    assert_eq!(validate_token(token(future), now.timestamp()), Ok(Some("tok".to_string())));
}

#[test]
fn expiry_with_offset_is_read() {
    // 2024-01-01T01:00:00+01:00 is 1704067200.
    let t = token("2024-01-01T01:00:00+01:00".to_string());
    assert_eq!(validate_token(t, 1704067199), Ok(Some("tok".to_string())));
    let t = token("2024-01-01T01:00:00+01:00".to_string());
    assert_eq!(validate_token(t, 1704067200), Err(RefreshError::Stale));
}

#[test]
fn unreadable_expiry_is_malformed() {
    assert_eq!(validate_token(token("tomorrow".to_string()), 0), Err(RefreshError::Malformed));
}

#[test]
fn absent_token_is_no_error() {
    assert_eq!(validate_token(None, 0), Ok(None));
}

#[test]
fn cache_path_is_named_by_sha1_of_start_url() {
    let text = "[profile p]
region = r
sso_account_id = 1
sso_role_name = n
sso_start_url = abc
sso_region = s
";
    let profiles = aws_config(text).ok().unwrap();
    assert_eq!(
        profiles[0].sso_cache_path(),
        ".aws/sso/cache/a9993e364706816aba3e25717850c26c9cd0d89d.json"
    );
}
