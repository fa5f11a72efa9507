//! The single sign-on token cache: where a profile's token is kept, and
//! whether a cached token may still be used.
use vstd::prelude::*;
use vstd::string::*;

use crate::config::ConfigSection;
use crate::error::RefreshError;

verus! {

/// A token left by an earlier login, as its cache file holds it.
pub struct CachedToken {
    pub access_token: String,
    /// The instant the token expires, in RFC 3339 form.
    pub expires_at: String,
}

/// The lowercase hexadecimal SHA-1 digest of the UTF-8 bytes of `s`.
pub uninterp spec fn sha1_hex_of(s: Seq<char>) -> Seq<char>;

/// The instant an RFC 3339 timestamp names, in whole seconds since the Unix
/// epoch; nothing where the text is not such a timestamp.
pub uninterp spec fn rfc3339_seconds(s: Seq<char>) -> Option<i64>;

/// Relies on `sha1_smol::Sha1::update` and `Sha1::digest`, whose digest
/// displays as forty lowercase hexadecimal digits.
#[verifier::external_body]
fn sha1_hex(s: &str) -> (r: String)
    ensures
        r@ == sha1_hex_of(s@),
        r@.len() == 40,
{
    let mut hasher = sha1_smol::Sha1::new();
    hasher.update(s.as_bytes());
    hasher.digest().to_string()
}

/// Relies on `chrono::DateTime::parse_from_rfc3339` and
/// `DateTime::timestamp`.
#[verifier::external_body]
fn parse_expiry(s: &str) -> (r: Option<i64>)
    ensures
        r == rfc3339_seconds(s@),
{
    chrono::DateTime::parse_from_rfc3339(s).ok().map(|d| d.timestamp())
}

/// The path, under the home directory, of the cache file of a start URL.
pub open spec fn cache_path_of(start_url: Seq<char>) -> Seq<char> {
    ".aws/sso/cache/"@ + sha1_hex_of(start_url) + ".json"@
}

impl ConfigSection {
    /// The path, relative to the home directory, of the file that caches
    /// this profile's token: named by the SHA-1 digest of its start URL.
    pub fn sso_cache_path(&self) -> (r: String)
        ensures
            r@ == cache_path_of(self.profile.sso_start_url@),
    {
        let hash = sha1_hex(self.profile.sso_start_url.as_str());
        let mut path = String::from_str(".aws/sso/cache/");
        path.append(hash.as_str());
        path.append(".json");
        path
    }
}

/// Decides on a token's expiry, given in seconds, against the current
/// instant `now`: the token may be used only if it expires strictly after
/// `now`. An expiry that could not be read is `Malformed`.
pub fn check_expiry(expiry: Option<i64>, now: i64) -> (r: Result<(), RefreshError>)
    ensures
        expiry matches Some(e) && e > now ==> r is Ok,
        expiry matches Some(e) && e <= now ==> r == Err::<(), RefreshError>(RefreshError::Stale),
        expiry is None ==> r == Err::<(), RefreshError>(RefreshError::Malformed),
{
    match expiry {
        Some(e) => if e > now {
            Ok(())
        } else {
            Err(RefreshError::Stale)
        },
        None => Err(RefreshError::Malformed),
    }
}

/// The access token to hand to the exchange, given what the cache held and
/// the current instant `now` in seconds. No cached token is no error: the
/// exchange goes ahead without one. A cached token is used only while its
/// expiry lies strictly after `now`.
pub fn validate_token(token: Option<CachedToken>, now: i64) -> (r: Result<Option<String>, RefreshError>)
    ensures
        token is None ==> r == Ok::<Option<String>, RefreshError>(None),
        token matches Some(t) ==> match rfc3339_seconds(t.expires_at@) {
            Some(e) => if e > now {
                r matches Ok(Some(a)) && a@ == t.access_token@
            } else {
                r == Err::<Option<String>, RefreshError>(RefreshError::Stale)
            },
            None => r == Err::<Option<String>, RefreshError>(RefreshError::Malformed),
        },
{
    match token {
        None => Ok(None),
        Some(t) => {
            let expiry = parse_expiry(t.expires_at.as_str());
            match check_expiry(expiry, now) {
                Ok(()) => Ok(Some(t.access_token)),
                Err(e) => Err(e),
            }
        },
    }
}

} // verus!
