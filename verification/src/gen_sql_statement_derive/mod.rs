//! The SQL generation used by the derive: configuration, type mapping, the
//! processing of a struct's fields and the statement text.
pub mod database_config;
pub mod field_processor;
pub mod gen_sql_str;
pub mod type_mapper;
