use gen_sql_statement::field_processor::FieldProcessor;
use gen_sql_statement::gen_sql_statement_derive::database_config::DEFAULT_DATABASE_NAME;
use gen_sql_statement::gen_sql_str::{can_create_table, create_table_sql_str, palce_holder_and_number_str};
use gen_sql_statement::struct_def::{DataDef, FieldDef, FieldType, StructDef};

fn field(name: &str, ty: &str, attrs: &[&str]) -> FieldDef {
    FieldDef {
        ident: Some(name.to_string()),
        ty: FieldType::Path(ty.to_string()),
        attrs: attrs.iter().map(|a| Some(a.to_string())).collect(),
    }
}

fn def(name: &str, fields: Vec<FieldDef>) -> StructDef {
    StructDef { ident: name.to_string(), generics: syn::Generics::default(), data: DataDef::Struct(fields) }
}

fn gen_test_token_stream() -> StructDef {
    def(
        "TestStruct",
        vec![
            field("id", "i32", &["primary_key"]),
            field("name", "String", &["ignore"]),
            field("age", "i32", &["ignore"]),
            field("height", "f32", &[]),
            field("weight", "f32", &[]),
            field("score", "u32", &["ignore"]),
        ],
    )
}

#[test]
fn sql_str_field_type_test() {
    let input = gen_test_token_stream();
    let field_processor = FieldProcessor::new(&input);
    let column_list = field_processor.get_column_list_without_primary_key();
    println!("{:?}", column_list);
}

#[test]
fn test_create_table_sql_str() {
    let input = gen_test_token_stream();
    let field_processor = FieldProcessor::new(&input);
    let sql_str = create_table_sql_str("test_table".to_string(), &field_processor);
    println!("{}", sql_str);
    if DEFAULT_DATABASE_NAME == "sqlite" {
        assert_eq!(
            sql_str,
            "CREATE TABLE IF NOT EXISTS test_table (id INTEGER PRIMARY KEY AUTOINCREMENT, height REAL, weight REAL, score INTEGER )"
        );
    } else if DEFAULT_DATABASE_NAME == "postgres" {
        assert_eq!(sql_str, "CREATE TABLE IF NOT EXISTS test_table (id INTEGER PRIMARY KEY, height INTEGER, weight REAL )")
    }
}

#[test]
fn create_table_with_marked_primary_key() {
    let fp = FieldProcessor::new(&gen_test_token_stream());
    assert!(can_create_table(&fp));
    assert_eq!(
        create_table_sql_str("test_table".to_string(), &fp),
        "CREATE TABLE IF NOT EXISTS test_table (id INTEGER PRIMARY KEY, height REAL, weight REAL )"
    );
}

#[test]
fn create_table_with_default_id_key() {
    let fp = FieldProcessor::new(&def("Product", vec![field("sku", "String", &[]), field("price", "f32", &[])]));
    assert_eq!(
        create_table_sql_str("product".to_string(), &fp),
        "CREATE TABLE IF NOT EXISTS product (id  INTEGER PRIMARY KEY AUTOINCREMENT , sku TEXT, price REAL )"
    );
}

#[test]
fn create_table_with_default_autoincrement_key() {
    let fp = FieldProcessor::new(&def("Item", vec![field("id", "u64", &[]), field("ok", "bool", &[])]));
    assert_eq!(
        create_table_sql_str("item".to_string(), &fp),
        "CREATE TABLE IF NOT EXISTS item (autoincrement   INTEGER PRIMARY KEY AUTOINCREMENT , id INTEGER, ok INTEGER )"
    );
}

#[test]
fn create_table_is_refused_without_columns_or_key_name() {
    // only the primary key: no other column
    let only_key = FieldProcessor::new(&def("K", vec![field("id", "i32", &["primary_key"])]));
    assert!(!can_create_table(&only_key));
    // both default names taken
    let both = FieldProcessor::new(&def("B", vec![field("id", "i32", &[]), field("autoincrement", "i32", &[])]));
    assert!(!can_create_table(&both));
    // an ignored field does not take a name
    let ignored = FieldProcessor::new(&def(
        "I",
        vec![field("id", "i32", &[]), field("autoincrement", "i32", &["ignore"])],
    ));
    assert!(can_create_table(&ignored));
}

#[test]
fn numbered_placeholders() {
    assert_eq!(palce_holder_and_number_str(0), "");
    assert_eq!(palce_holder_and_number_str(1), "?1");
    assert_eq!(palce_holder_and_number_str(3), "?1, ?2, ?3");
}

#[test]
fn cloned_processor_gives_the_same_statement() {
    let fp = FieldProcessor::new(&gen_test_token_stream());
    let copy = fp.clone();
    assert_eq!(
        create_table_sql_str("t".to_string(), &copy),
        create_table_sql_str("t".to_string(), &fp)
    );
}
