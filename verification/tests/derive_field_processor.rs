use gen_sql_statement::gen_sql_statement_derive::field_processor::{check_derive_input, FieldProcessor};
use gen_sql_statement::struct_def::{DataDef, FieldDef, FieldType, InputError, StructDef};

fn field(name: &str, ty: &str, attrs: &[&str]) -> FieldDef {
    FieldDef {
        ident: Some(name.to_string()),
        ty: FieldType::Path(ty.to_string()),
        attrs: attrs.iter().map(|a| Some(a.to_string())).collect(),
    }
}

fn def(name: &str, fields: Vec<FieldDef>) -> StructDef {
    StructDef { ident: name.to_string(), generics: syn::Generics::default(), data: DataDef::Struct(fields) }
}

/// struct TestStruct { #[primary_key] id: i32, name: String, #[ignore] age: i32 }
fn gen_test_token_stream() -> StructDef {
    def(
        "TestStruct",
        vec![field("id", "i32", &["primary_key"]), field("name", "String", &[]), field("age", "i32", &["ignore"])],
    )
}

#[test]
fn test_field_processor() {
    let input = gen_test_token_stream();

    let field_processor = FieldProcessor::new(&input);
    let fields = field_processor.get_fields();
    let table_name = field_processor.get_table_name();
    let primary_key = field_processor.get_primary_key();
    let ignore_fields_name = field_processor.get_ignore_fields_name();

    assert_eq!(fields.len(), 3);

    //the ident will be converted to lower case
    assert_eq!(table_name, "teststruct");

    assert_eq!(primary_key.0, "id".to_string());
    assert_eq!(ignore_fields_name.len(), 1);
    assert_eq!(ignore_fields_name[0], "age");
}

#[test]
fn test_get_column_list() {
    let input = gen_test_token_stream();

    let field_processor = FieldProcessor::new(&input);
    let column_list = field_processor.get_column_list();

    assert_eq!(column_list.len(), 1);
    assert_eq!(column_list[0].0, "name");
    assert_eq!(column_list[0].1, "TEXT");
}

#[test]
fn test_get_field_names() {
    let input = gen_test_token_stream();

    let field_processor = FieldProcessor::new(&input);
    let field_names = field_processor.get_field_names();

    assert_eq!(field_names.len(), 2);
    assert_eq!(field_names[1], "name");
    //the priamary key field name is always at first place .
    assert_eq!(field_names[0], "id");
}

#[test]
fn derive_field_infos_follow_the_fields() {
    let input = gen_test_token_stream();
    let fp = FieldProcessor::new(&input);
    let f = fp.get_fields();
    assert_eq!(f[0].name, "id");
    assert_eq!(f[0].ty_name, "INTEGER");
    assert!(f[0].is_primary_key && !f[0].is_ignore);
    assert_eq!(f[1].name, "name");
    assert_eq!(f[1].ty_name, "TEXT");
    assert!(!f[1].is_primary_key && !f[1].is_ignore);
    assert_eq!(f[2].name, "age");
    assert!(!f[2].is_primary_key && f[2].is_ignore);
    // the primary key column is declared with the default definition
    assert_eq!(fp.get_primary_key().1, " INTEGER PRIMARY KEY AUTOINCREMENT ");
}

#[test]
fn derive_default_primary_key_is_id() {
    let input = def("Product", vec![field("sku", "String", &[]), field("price", "f32", &[])]);
    assert_eq!(check_derive_input(&input), Ok(()));
    let fp = FieldProcessor::new(&input);
    assert_eq!(fp.get_primary_key().0, "id");
    assert_eq!(fp.get_field_names(), vec!["id".to_string(), "sku".to_string(), "price".to_string()]);
}

#[test]
fn derive_default_primary_key_falls_back_to_autoincrement() {
    let input = def("Item", vec![field("id", "u64", &[]), field("title", "String", &[])]);
    let fp = FieldProcessor::new(&input);
    assert_eq!(fp.get_primary_key().0, "autoincrement");
    assert_eq!(fp.get_field_names(), vec!["autoincrement".to_string(), "id".to_string(), "title".to_string()]);
}

#[test]
fn derive_repeated_ignore_is_recorded_each_time() {
    let input = def("Twice", vec![field("a", "i32", &["ignore", "ignore"]), field("b", "bool", &[])]);
    let fp = FieldProcessor::new(&input);
    assert_eq!(fp.get_ignore_fields_name(), &vec!["a".to_string(), "a".to_string()]);
    assert_eq!(fp.get_column_list(), vec![("b".to_string(), "INTEGER".to_string())]);
}

#[test]
fn derive_rejects_taken_default_names() {
    let input = def("Both", vec![field("id", "i32", &[]), field("autoincrement", "i32", &[])]);
    assert_eq!(check_derive_input(&input), Err(InputError::NoDefaultPrimaryKey));
    let marked = def("Both", vec![field("id", "i32", &["primary_key"]), field("autoincrement", "i32", &[])]);
    assert_eq!(check_derive_input(&marked), Ok(()));
}

#[test]
fn derive_rejects_malformed_input() {
    let not_struct = StructDef { ident: "E".to_string(), generics: syn::Generics::default(), data: DataDef::Enum };
    assert_eq!(check_derive_input(&not_struct), Err(InputError::NotAStruct));
    let union = StructDef { ident: "U".to_string(), generics: syn::Generics::default(), data: DataDef::Union };
    assert_eq!(check_derive_input(&union), Err(InputError::NotAStruct));

    let unnamed = def(
        "T",
        vec![FieldDef { ident: None, ty: FieldType::Path("i32".to_string()), attrs: vec![] }],
    );
    assert_eq!(check_derive_input(&unnamed), Err(InputError::UnnamedField));

    let bad_attr = def(
        "T",
        vec![FieldDef { ident: Some("a".to_string()), ty: FieldType::Other, attrs: vec![None] }],
    );
    assert_eq!(check_derive_input(&bad_attr), Err(InputError::AttributeWithoutIdent));

    let two_keys = def("T", vec![field("a", "i32", &["primary_key"]), field("b", "i32", &["primary_key"])]);
    assert_eq!(check_derive_input(&two_keys), Err(InputError::MultiplePrimaryKeys));
    let same_field = def("T", vec![field("a", "i32", &["primary_key", "primary_key"])]);
    assert_eq!(check_derive_input(&same_field), Err(InputError::MultiplePrimaryKeys));

    // the first problem in field order is the one reported
    let first = def(
        "T",
        vec![
            field("a", "i32", &["primary_key"]),
            FieldDef { ident: None, ty: FieldType::Other, attrs: vec![] },
            field("b", "i32", &["primary_key"]),
        ],
    );
    assert_eq!(check_derive_input(&first), Err(InputError::UnnamedField));
}

#[test]
fn derive_generics_are_carried() {
    let mut input = gen_test_token_stream();
    input.generics = syn::parse_str::<syn::Generics>("<'a, T: Clone>").unwrap();
    let fp = FieldProcessor::new(&input);
    assert_eq!(fp.get_generics(), &input.generics);
}

#[test]
fn derive_clone_keeps_everything() {
    let fp = FieldProcessor::new(&gen_test_token_stream());
    let copy = fp.clone();
    assert_eq!(copy.get_field_names(), fp.get_field_names());
    assert_eq!(copy.get_column_list(), fp.get_column_list());
    assert_eq!(copy.get_table_name(), fp.get_table_name());
    assert_eq!(copy.get_generics(), fp.get_generics());
}

#[test]
fn derive_field_names_never_repeat() {
    // the default key `autoincrement` is chosen since `id` is a column
    let input = def("Item", vec![field("id", "u64", &[]), field("name", "String", &[]), field("x", "i32", &["ignore"])]);
    let names = FieldProcessor::new(&input).get_field_names();
    for i in 0..names.len() {
        for j in (i + 1)..names.len() {
            assert_ne!(names[i], names[j]);
        }
    }
    assert_eq!(names, vec!["autoincrement".to_string(), "id".to_string(), "name".to_string()]);
}
