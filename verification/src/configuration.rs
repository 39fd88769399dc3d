//! The application's configuration record: a single API credential.

use vstd::prelude::*;

verus! {

/// The settings the surrounding program loads from and saves to disk.
/// The library only models the record itself; reading and writing the
/// configuration file is left to the caller.
#[derive(Clone, Debug)]
pub struct AppConfig {
    pub notion_api_key: String,
}

impl AppConfig {
    /// Builds a configuration record holding the given API credential.
    pub fn new(notion_api_key: String) -> (config: AppConfig)
        ensures
            config.notion_api_key@ == notion_api_key@,
    {
        AppConfig { notion_api_key }
    }
}

impl Default for AppConfig {
    /// An empty credential: the record before any key has been entered.
    fn default() -> (config: AppConfig)
        ensures
            config.notion_api_key@ == Seq::<char>::empty(),
    {
        AppConfig { notion_api_key: String::new() }
    }
}

} // verus!
