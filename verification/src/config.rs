//! The configuration the poller runs with: the server's base URL and the
//! optional credential pair. Reading and writing the on-disk file is I/O
//! and lives with the caller; the values themselves, and what counts as a
//! complete credential pair, are fixed here.

use vstd::prelude::*;

verus! {

/// The whole configuration: one server section.
#[derive(Clone, Debug)]
pub struct Config {
    pub jenkins: JenkinsConfig,
}

/// One server: its base URL, the optional credential pair, and an optional
/// display name. Only URL-construction success validates the URL; there is
/// no schema beyond that.
#[derive(Clone, Debug)]
pub struct JenkinsConfig {
    pub url: String,
    pub user: Option<String>,
    pub access_token: Option<String>,
    pub name: Option<String>,
}

impl JenkinsConfig {
    /// Whether this configuration holds a complete credential pair:
    /// both the username and the access token.
    pub fn has_credentials(&self) -> (r: bool)
        ensures
            r == (self.user.is_some() && self.access_token.is_some()),
    {
        self.user.is_some() && self.access_token.is_some()
    }
}

} // verus!
