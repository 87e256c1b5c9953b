//! Which credentials to log in with, given what an earlier run left behind.
use vstd::prelude::*;
use crate::config::TwitchConfig;
use crate::text::{trim, trimmed};

verus! {

/// The credentials that an earlier run saved after refreshing them.
#[derive(Debug)]
pub struct TokenCache {
    /// The configured access token that the saved ones descend from.
    pub base_access_token: String,
    pub current_access_token: String,
    pub current_refresh_token: String,
}

/// The credentials to start with.
#[derive(Debug)]
pub struct Tokens {
    /// The configured access token.
    pub base_access_token: String,
    pub access_token: String,
    pub refresh_token: String,
}

/// Whether saved credentials descend from the configured access token.
pub open spec fn cache_applies(config: TwitchConfig, cache: Option<TokenCache>) -> bool {
    cache matches Some(c) && c.base_access_token@ == config.access_token@
}

/// Whether a cache file holds nothing but white space.
pub fn cache_is_blank(content: &str) -> (r: bool)
    ensures
        r == (trimmed(content@).len() == 0),
{
    trim(content).is_empty()
}

/// Chooses the credentials to start with: the saved ones where they descend
/// from the configured access token, else the configured ones.
pub fn get_token_from_cache(config: &TwitchConfig, cache: Option<TokenCache>) -> (r: Tokens)
    ensures
        r.base_access_token@ == config.access_token@,
        r.access_token@ == if cache_applies(*config, cache) {
            cache->Some_0.current_access_token@
        } else {
            config.access_token@
        },
        r.refresh_token@ == if cache_applies(*config, cache) {
            cache->Some_0.current_refresh_token@
        } else {
            config.refresh_token@
        },
{
    match cache {
        Some(c) => {
            if c.base_access_token == config.access_token {
                Tokens {
                    base_access_token: config.access_token.clone(),
                    access_token: c.current_access_token,
                    refresh_token: c.current_refresh_token,
                }
            } else {
                Tokens {
                    base_access_token: config.access_token.clone(),
                    access_token: config.access_token.clone(),
                    refresh_token: config.refresh_token.clone(),
                }
            }
        },
        None => Tokens {
            base_access_token: config.access_token.clone(),
            access_token: config.access_token.clone(),
            refresh_token: config.refresh_token.clone(),
        },
    }
}

/// How long to wait before refreshing a token that expires in
/// `expires_in_nanos` nanoseconds: four fifths of its remaining life.
pub fn refresh_delay(expires_in_nanos: u128) -> (r: u128)
    ensures
        r == expires_in_nanos - expires_in_nanos / 5,
{
    expires_in_nanos - expires_in_nanos / 5
}

} // verus!
