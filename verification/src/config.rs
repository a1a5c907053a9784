//! Settings of the application: where the database lies and where the server
//! listens.

use vstd::prelude::*;

verus! {

/// The settings of the application.
#[derive(Debug, Clone)]
pub struct AppConfig {
    pub database_path: String,
    pub server_address: String,
}

/// The database path that is used where none is set.
pub const DEFAULT_DATABASE_PATH: &'static str = "rusty_board.db";

/// The server address that is used where none is set.
pub const DEFAULT_SERVER_ADDRESS: &'static str = "0.0.0.0:3000";

impl Default for AppConfig {
    fn default() -> (config: AppConfig)
        ensures
            config.database_path@ == DEFAULT_DATABASE_PATH@,
            config.server_address@ == DEFAULT_SERVER_ADDRESS@,
    {
        AppConfig {
            database_path: DEFAULT_DATABASE_PATH.to_owned(),
            server_address: DEFAULT_SERVER_ADDRESS.to_owned(),
        }
    }
}

impl AppConfig {
    /// Makes the settings from the values that were found, each replaced by
    /// its default where none was found.
    pub fn from_settings(database_path: Option<String>, server_address: Option<String>) -> (config:
        AppConfig)
        ensures
            config.database_path@ == match database_path {
                Some(path) => path@,
                None => DEFAULT_DATABASE_PATH@,
            },
            config.server_address@ == match server_address {
                Some(address) => address@,
                None => DEFAULT_SERVER_ADDRESS@,
            },
    {
        AppConfig {
            database_path: match database_path {
                Some(path) => path,
                None => DEFAULT_DATABASE_PATH.to_owned(),
            },
            server_address: match server_address {
                Some(address) => address,
                None => DEFAULT_SERVER_ADDRESS.to_owned(),
            },
        }
    }
}

} // verus!
