//! The settings that the server runs with.
use vstd::prelude::*;

verus! {

pub struct GlobalConfig {
    /// url for the postgres database
    pub database_url: String,
    /// which image to use for running python bots
    pub python_runner_image: String,
    /// url for the internal container registry, used when running bots
    pub container_registry_url: String,
    /// webserver root url, used to construct links
    pub root_url: String,
    /// directory where bot code is stored
    pub bots_directory: String,
    /// directory where match logs are stored
    pub match_logs_directory: String,
    /// directory where map files are stored
    pub maps_directory: String,
    /// base directory for registry data
    pub registry_directory: String,
    /// secret admin password for the internal registry, used to pull bots
    /// when running matches
    pub registry_admin_password: String,
    /// whether to run the ranker
    pub ranker_enabled: bool,
}

} // verus!
