use gen_sql_statement::field_processor::FieldProcessor;
use gen_sql_statement::gen_sql_statement_derive::field_processor::FieldProcessor as DeriveFieldProcessor;
use gen_sql_statement::gen_sql_str::create_table_sql_str;
use gen_sql_statement::struct_def::{DataDef, FieldDef, FieldType, StructDef};

fn field(name: &str, ty: &str, attrs: &[&str]) -> FieldDef {
    FieldDef {
        ident: Some(name.to_string()),
        ty: FieldType::Path(ty.to_string()),
        attrs: attrs.iter().map(|a| Some(a.to_string())).collect(),
    }
}

fn def(name: &str, fields: Vec<FieldDef>) -> StructDef {
    StructDef { ident: name.to_string(), generics: syn::Generics::default(), data: DataDef::Struct(fields) }
}

/// struct User { #[primary_key] id: i32, name: String, age: i32 }
fn user() -> StructDef {
    def("User", vec![field("id", "i32", &["primary_key"]), field("name", "String", &[]), field("age", "i32", &[])])
}

/// struct Product { sku: String, price: f32, stock: i32 }
fn product() -> StructDef {
    def("Product", vec![field("sku", "String", &[]), field("price", "f32", &[]), field("stock", "i32", &[])])
}

/// The statement that `create_table_sql` returns for a struct.
fn create_table_sql(input: &StructDef) -> String {
    let fp = FieldProcessor::new(input);
    create_table_sql_str(fp.get_struct_ident(), &fp)
}

#[test]
fn test_create_table_with_primary_key() {
    let sql = create_table_sql(&user());
    println!("User SQL: {}", sql);

    assert!(sql.contains("CREATE TABLE IF NOT EXISTS"));
    assert!(sql.contains("user"));
    assert!(sql.contains("id"));
    assert!(sql.contains("PRIMARY KEY"));
    assert!(sql.contains("name"));
    assert!(sql.contains("age"));
}

#[test]
fn test_create_table_without_primary_key() {
    let sql = create_table_sql(&product());
    println!("Product SQL: {}", sql);

    assert!(sql.contains("CREATE TABLE IF NOT EXISTS"));
    assert!(sql.contains("product"));
    assert!(sql.contains("id"));
}

#[test]
fn test_macros_test_get_field_names() {
    let field_names = DeriveFieldProcessor::new(&user()).get_field_names();
    println!("Field names: {:?}", field_names);

    assert_eq!(field_names, vec!["id", "name", "age"]);
}

#[test]
fn create_table_statements_in_full() {
    assert_eq!(
        create_table_sql(&user()),
        "CREATE TABLE IF NOT EXISTS user (id INTEGER PRIMARY KEY, name TEXT, age INTEGER )"
    );
    assert_eq!(
        create_table_sql(&product()),
        "CREATE TABLE IF NOT EXISTS product (id  INTEGER PRIMARY KEY AUTOINCREMENT , sku TEXT, price REAL, stock INTEGER )"
    );
}
