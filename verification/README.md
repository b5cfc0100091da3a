# gen_sql_statement

Verified generation of SQLite statements from the description of a Rust
struct, as a `#[derive(SqlStatement)]` macro needs it.

- `src/struct_def.rs` describes a struct definition (name, generics, and per
  field its name, type name and attribute names) and decides whether a table
  can be made from it.
- `src/field_processor.rs` and `src/gen_sql_str.rs` build the
  `CREATE TABLE IF NOT EXISTS` statement.
- `src/gen_sql_statement_derive/` holds the database configuration, the
  Rust-to-SQL type mapping, the processing the derive uses for the field names,
  and the insert statement.
- `src/sql_statement_derive/` holds the insert statement over a chosen subset
  of the columns.
- `src/sql_statement_trait/` holds the `SqlStatement` traits and the checking
  of a user's field list.
- `app/lib.rs` reads a `syn::DeriveInput` into the library's description and
  writes the trait impl with `quote`.
