//! The statement generation of the second derive: insert statements for a
//! chosen subset of the columns.
pub mod gen_sql_str;
