use gen_sql_statement::field_processor::FieldProcessor;
use gen_sql_statement::struct_def::{scan_input, DataDef, FieldDef, FieldType, StructDef};

fn field(name: &str, ty: &str, attrs: &[&str]) -> FieldDef {
    FieldDef {
        ident: Some(name.to_string()),
        ty: FieldType::Path(ty.to_string()),
        attrs: attrs.iter().map(|a| Some(a.to_string())).collect(),
    }
}

fn def(name: &str, fields: Vec<FieldDef>) -> StructDef {
    StructDef { ident: name.to_string(), generics: syn::Generics::default(), data: DataDef::Struct(fields) }
}

/// struct TestStruct { #[primary_key] id: i32, name: String, #[ignore] age: i32 }
fn gen_test_token_stream() -> StructDef {
    def(
        "TestStruct",
        vec![field("id", "i32", &["primary_key"]), field("name", "String", &[]), field("age", "i32", &["ignore"])],
    )
}

#[test]
fn test_get_column_list_without_primary_key() {
    let input = gen_test_token_stream();
    let field_processor = FieldProcessor::new(&input);
    println!("{:?}", field_processor.get_column_list_without_primary_key());
    assert_eq!(field_processor.get_column_list_without_primary_key().len(), 1);
}

#[test]
fn field_processor_test_get_column_list() {
    let input = gen_test_token_stream();
    let field_processor = FieldProcessor::new(&input);
    println!("{:?}", field_processor.get_column_list());
    assert_eq!(field_processor.get_column_list().len(), 2);
}

#[test]
fn root_processor_records_the_fields() {
    let input = gen_test_token_stream();
    assert_eq!(scan_input(&input), Ok(true));
    let fp = FieldProcessor::new(&input);
    assert_eq!(fp.get_fields().len(), 3);
    assert_eq!(fp.get_struct_ident(), "teststruct");
    let pk = fp.get_primary_key().unwrap();
    assert_eq!(pk.0, "id");
    assert!(matches!(pk.1, FieldType::Path(ref t) if t == "i32"));
    assert_eq!(fp.get_ignore_fields_name(), &vec!["age".to_string()]);
    assert_eq!(fp.get_column_list(), vec!["id".to_string(), "name".to_string()]);
    assert_eq!(fp.get_column_list_without_primary_key(), vec!["name".to_string()]);
}

#[test]
fn root_type_lists_pair_with_column_lists() {
    let input = gen_test_token_stream();
    let fp = FieldProcessor::new(&input);
    // the primary key stays in this list
    assert_eq!(fp.get_sql_type_list(), vec!["INTEGER".to_string(), "TEXT".to_string()]);
    // and is filtered out of this one, as the column list without it is
    assert_eq!(fp.get_sql_type_list_without_primary_key(), vec!["TEXT".to_string()]);
}

#[test]
fn root_processor_without_primary_key() {
    let input = def("Product", vec![field("sku", "String", &[]), field("price", "f32", &[])]);
    let fp = FieldProcessor::new(&input);
    assert!(fp.get_primary_key().is_none());
    assert_eq!(fp.get_column_list_without_primary_key(), vec!["sku".to_string(), "price".to_string()]);
    assert_eq!(fp.get_sql_type_list_without_primary_key(), vec!["TEXT".to_string(), "REAL".to_string()]);
}

#[test]
fn field_processor_test_field_processor() {
    let input = gen_test_token_stream();

    let field_processor = FieldProcessor::new(&input);
    let fields = field_processor.get_fields();
    let struct_ident = field_processor.get_struct_ident();
    let primary_key = field_processor.get_primary_key();
    let ignore_fields_name = field_processor.get_ignore_fields_name();

    assert_eq!(fields.len(), 3);

    // the ident is converted to lower case: "teststruct", as the doc of
    // `get_struct_ident` ("convert it into all lower case") and the README ("the
    // struct ident with all lowercase") say, where "test_struct" was expected
    assert_eq!(struct_ident, "teststruct");

    assert_eq!(primary_key.unwrap().0, "id".to_string());
    // only `age` carries `#[ignore]`, and the README says that the field marked
    // `#[ignore]` is the one ignored: one name, "age", where two ("name", "age")
    // were expected
    assert_eq!(ignore_fields_name.len(), 1);
    assert_eq!(ignore_fields_name[0], "age");
}

#[test]
fn test_get_sql_list() {
    let input = gen_test_token_stream();

    let field_processor = FieldProcessor::new(&input);
    let sql_type_list = field_processor.get_sql_type_list();

    // the doc of `get_sql_type_list` says "The primary key field will be
    // REMAINED in this vector": `id` and `name` give two types, where one was
    // expected
    assert_eq!(sql_type_list.len(), 2);
    println!("sql_type_list: {:?}", sql_type_list);
}
