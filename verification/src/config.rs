//! What a deployment configures.
use vstd::prelude::*;

verus! {

/// The configuration of one deployment.
#[derive(Debug)]
pub struct Config {
    pub twitch: TwitchConfig,
    /// Where the storage engine is reached.
    pub database: String,
    /// The directory that holds the text logs.
    pub rollup_dir: String,
    /// Where the search service listens.
    pub port: u16,
}

/// The account on the chat network and the channels to archive.
#[derive(Debug)]
pub struct TwitchConfig {
    pub username: String,
    pub access_token: String,
    pub refresh_token: String,
    pub client_id: String,
    pub client_secret: String,
    pub channels: Vec<String>,
}

} // verus!
