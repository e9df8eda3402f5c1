//! Where the ledger is kept, and what has to exist before it is opened.

use vstd::prelude::*;

verus! {

/// Name of the directory, below the user's local configuration directory,
/// that holds the database and the settings.
pub const APP_DIRECTORY: &'static str = "waterer";

/// File name of the database.
pub const DB_NAME: &'static str = "waterer.db";

/// File name of the settings.
pub const SETTINGS_FILE: &'static str = "settings.toml";

/// What to create before the database is opened.
#[derive(Debug, Clone, Copy, PartialEq, Eq, Structural)]
pub struct DbSetup {
    pub create_directory: bool,
    pub create_file: bool,
}

/// Decides what to create for the database. An existing file is left
/// alone. A missing one is created, after its directory if that is missing
/// too.
pub fn init_db(db_file_exists: bool, db_directory_exists: bool) -> (setup: DbSetup)
    ensures
        setup.create_file == !db_file_exists,
        setup.create_directory == (!db_file_exists && !db_directory_exists),
{
    if db_file_exists {
        DbSetup { create_directory: false, create_file: false }
    } else {
        DbSetup { create_directory: !db_directory_exists, create_file: true }
    }
}

} // verus!
