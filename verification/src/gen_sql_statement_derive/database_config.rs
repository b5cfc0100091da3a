//! The configuration for the database the statements are written for: SQLite.
use vstd::prelude::*;
use super::type_mapper::SqliteTypeMapper;

verus! {

/// The placeholder that marks a bound parameter in a statement.
pub const DATABASE_PALCE_HOLDER: &'static str = "?";

/// The column definition of a primary key that the generators add themselves.
pub const DEFAULT_PRIMARY_KEY_SQL_STR: &'static str = " INTEGER PRIMARY KEY AUTOINCREMENT ";

/// The name of the current database.
pub const DEFAULT_DATABASE_NAME: &'static str = "test.db";

/// The mapper from Rust types to the SQL types of the current database.
pub fn get_mapper() -> (m: SqliteTypeMapper)
    ensures
        m == SqliteTypeMapper,
{
    SqliteTypeMapper
}

} // verus!
