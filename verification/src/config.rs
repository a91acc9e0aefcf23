//! Where the persistent store lives.

use vstd::prelude::*;

verus! {

/// The configuration of the persistent store, made once when the process
/// starts and handed to whoever opens the store.
#[derive(Debug)]
pub struct StoreConfig {
    pub db_path: String,
}

/// The place of the store's file, relative to the working directory.
pub open spec fn default_db_path() -> Seq<char> {
    "../fixary.db"@
}

/// Makes the store configuration with the default place of the store's file.
pub fn init_db_path() -> (config: StoreConfig)
    ensures
        config.db_path@ == default_db_path(),
{
    StoreConfig { db_path: String::from_str("../fixary.db") }
}

/// The place of the store's file under a configuration.
pub fn current_db_path(config: &StoreConfig) -> (path: String)
    ensures
        path == config.db_path,
{
    config.db_path.clone()
}

} // verus!
