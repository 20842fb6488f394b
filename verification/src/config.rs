//! Where the server is and how to reach it.

use vstd::prelude::*;
use vstd::string::*;
use crate::error::SourceError;
use crate::text::{strip_trailing, strip_trailing_slashes};

verus! {

/// The base address of the API and the key that unlocks it.
#[derive(Clone, Debug, PartialEq, Eq)]
pub struct Config {
    /// The server address without trailing slashes, followed by `/api`.
    pub api_url: String,
    pub api_key: String,
}

/// The API base for a server address.
pub open spec fn api_base(address: Seq<char>) -> Seq<char> {
    strip_trailing(address, '/') + "/api"@
}

/// Whether the settings name a server and a key.
pub open spec fn settings_usable(address: Seq<char>, key: Seq<char>) -> bool {
    strip_trailing(address, '/').len() > 0 && key.len() > 0
}

impl Config {
    /// Builds the configuration from the two settings. An address that is
    /// empty once its trailing slashes are gone, or an empty key, is refused.
    pub fn new(address: &str, key: &str) -> (made: Result<Config, SourceError>)
        ensures
            match made {
                Ok(config) => settings_usable(address@, key@) && config.api_url@ == api_base(
                    address@,
                ) && config.api_key@ == key@,
                Err(e) => e == SourceError::Config && !settings_usable(address@, key@),
            },
    {
        let trimmed = strip_trailing_slashes(address);
        if trimmed.as_str().unicode_len() == 0 || key.unicode_len() == 0 {
            return Err(SourceError::Config);
        }
        let api_url = trimmed.concat("/api");
        Ok(Config { api_url, api_key: String::from_str(key) })
    }

    /// Builds the configuration from settings that may be missing.
    pub fn from_settings(address: Option<&str>, key: Option<&str>) -> (made: Result<
        Config,
        SourceError,
    >)
        ensures
            match made {
                Ok(config) => address is Some && key is Some && settings_usable(
                    address->0@,
                    key->0@,
                ) && config.api_url@ == api_base(address->0@) && config.api_key@ == key->0@,
                Err(e) => e == SourceError::Config && !(address is Some && key is Some
                    && settings_usable(address->0@, key->0@)),
            },
    {
        match (address, key) {
            (Some(address), Some(key)) => Config::new(address, key),
            _ => Err(SourceError::Config),
        }
    }
}

} // verus!
