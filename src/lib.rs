//! Refreshes short-lived cloud role credentials from cached single sign-on tokens.
//!
//! The library holds the logic of the refresh: reading the profile and
//! credential stores, choosing a profile, naming and checking the cached token,
//! and merging the exchanged credentials back into the store. Reading and
//! writing files and talking to the token-exchange service is left to the
//! caller, which hands the library plain values.

pub mod config;
pub mod credentials;
pub mod error;
pub mod inifile;
pub mod refresh;
pub mod text;
pub mod token;

pub use config::{aws_config, config_section, profiles_of, resolve_profile, ConfigProfile, ConfigSection};
pub use credentials::{
    credentials_section, get_credentials, merge_credentials, write_credentials, CredentialsSection,
};
pub use error::RefreshError;
pub use inifile::{lookup_value, IniSection};

pub use refresh::{
    exchange_request, exchanged_entry, merged_store_text, refresh_creds, start_refresh, waits_for,
    ExchangeRequest, RefreshAction, RefreshEvent, RefreshState, RoleCredentials,
};
pub use token::{check_expiry, validate_token, CachedToken};
pub use text::{contains_str, is_white_space, last_word, same_text};
