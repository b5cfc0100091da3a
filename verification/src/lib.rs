//! SQL statements for Rust structs: a verified library that reads the
//! description of a struct definition and writes the `CREATE TABLE` and
//! `INSERT` statements for SQLite, with the Rust-to-SQL type mapping and the
//! checking of a user's field list.
pub mod text;
pub mod struct_def;
pub mod gen_sql_statement_derive;
pub mod sql_statement_derive;
pub mod field_processor;
pub mod gen_sql_str;
pub mod sql_statement_trait;
