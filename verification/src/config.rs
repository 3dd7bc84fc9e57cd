//! Process configuration: the signing secret and the lifetime of each kind of token.

use vstd::prelude::*;

verus! {

/// Configuration fixed at process start and read-only afterwards.
#[derive(Clone, Debug, PartialEq, Eq)]
pub struct AppConfig {
    pub database_url: String,
    /// The server's signing secret.
    pub hmac_key: String,
    /// Lifetime of a refresh token.  Despite the field's name the value counts minutes.
    pub refresh_token_ttl_in_hr: usize,
    /// Lifetime of an access token, in minutes.
    pub access_token_ttl_in_min: usize,
    /// Lifetime of an activation token, in hours.
    pub activation_token_ttl_in_hr: usize,
}

/// Mathematical model of an [`AppConfig`].
pub struct AppConfigView {
    pub database_url: Seq<char>,
    pub hmac_key: Seq<char>,
    pub refresh_token_ttl_in_hr: nat,
    pub access_token_ttl_in_min: nat,
    pub activation_token_ttl_in_hr: nat,
}

impl View for AppConfig {
    type V = AppConfigView;

    open spec fn view(&self) -> AppConfigView {
        AppConfigView {
            database_url: self.database_url@,
            hmac_key: self.hmac_key@,
            refresh_token_ttl_in_hr: self.refresh_token_ttl_in_hr as nat,
            access_token_ttl_in_min: self.access_token_ttl_in_min as nat,
            activation_token_ttl_in_hr: self.activation_token_ttl_in_hr as nat,
        }
    }
}

impl AppConfigView {
    /// The secret is not empty and every lifetime is positive.
    pub open spec fn wf(self) -> bool {
        &&& self.hmac_key.len() > 0
        &&& self.refresh_token_ttl_in_hr > 0
        &&& self.access_token_ttl_in_min > 0
        &&& self.activation_token_ttl_in_hr > 0
    }
}

impl AppConfig {
    /// Whether the secret is not empty and every lifetime is positive.
    pub fn is_valid(&self) -> (r: bool)
        ensures
            r == self@.wf(),
    {
        !self.hmac_key.as_str().is_empty() && self.refresh_token_ttl_in_hr > 0
            && self.access_token_ttl_in_min > 0 && self.activation_token_ttl_in_hr > 0
    }
}

} // verus!
