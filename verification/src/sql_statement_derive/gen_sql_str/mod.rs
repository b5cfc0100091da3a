//! Functions to generate SQL strings.
pub mod gen_insert_sql_str;
