use gen_sql_statement::gen_sql_statement_derive::field_processor::FieldProcessor;
use gen_sql_statement::gen_sql_statement_derive::gen_sql_str::gen_insert_sql_str::{
    gen_field_name_str, gen_inser_sql_str, gen_value_list,
};
use gen_sql_statement::sql_statement_derive::gen_sql_str::gen_insert_sql_str as chosen;
use gen_sql_statement::struct_def::{DataDef, FieldDef, FieldType, StructDef};

fn field(name: &str, ty: &str, attrs: &[&str]) -> FieldDef {
    FieldDef {
        ident: Some(name.to_string()),
        ty: FieldType::Path(ty.to_string()),
        attrs: attrs.iter().map(|a| Some(a.to_string())).collect(),
    }
}

/// The processor, column list, table name and primary key of the test struct.
fn gen_test_token_stream() -> (FieldProcessor, Vec<(String, String)>, String, (String, String)) {
    let input = StructDef {
        ident: "TestStruct".to_string(),
        generics: syn::Generics::default(),
        data: DataDef::Struct(vec![
            field("id", "i32", &["primary_key"]),
            field("name", "String", &["ignore"]),
            field("age", "i32", &["ignore"]),
            field("height", "f32", &[]),
            field("weight", "f32", &[]),
            field("score", "u32", &["ignore"]),
        ]),
    };
    let field_processor = FieldProcessor::new(&input);
    let column_list = field_processor.get_column_list();
    let table_name = field_processor.get_table_name();
    let primary_key = field_processor.get_primary_key();
    (field_processor, column_list, table_name, primary_key)
}

#[test]
fn test_gen_field_name_str() {
    let (_, column_list, _, _) = gen_test_token_stream();
    let field_name_str = gen_field_name_str(&column_list);
    assert_eq!(field_name_str, " height, weight");
}

#[test]
fn test_gen_insert_sql_str() {
    let (_field_processor, column_list, table_name, primary_key) = gen_test_token_stream();
    let str = gen_inser_sql_str(&column_list, &table_name, primary_key);
    println!("{}", str);
}

#[test]
fn gen_insert_sql_str_test_gen_field_name_str() {
    let (_, column_list, _, _) = gen_test_token_stream();
    let list: Vec<&str> = column_list.iter().map(|(name, _)| name.as_str()).collect();
    let field_name_str = chosen::gen_field_name_str(&list);
    assert_eq!(field_name_str, " height, weight");
}

#[test]
fn gen_insert_sql_str_test_gen_insert_sql_str() {
    let (_field_processor, column_list, table_name, primary_key) = gen_test_token_stream();
    let str = chosen::gen_insert_sql_statement(table_name, primary_key, &column_list, None);
    println!("{}", str);
}

#[test]
fn insert_statement_binds_every_column() {
    let (_, column_list, table_name, primary_key) = gen_test_token_stream();
    assert_eq!(
        gen_inser_sql_str(&column_list, &table_name, primary_key),
        "INSERT INTO teststruct( id,  height, weight ) VALUES ( ?1,  ?2,  ?3)"
    );
}

#[test]
fn value_list_numbers_from_one() {
    let cols: Vec<(String, String)> = (0..11).map(|i| (format!("c{}", i), "TEXT".to_string())).collect();
    assert_eq!(
        gen_value_list(&cols),
        " ?1,  ?2,  ?3,  ?4,  ?5,  ?6,  ?7,  ?8,  ?9,  ?10,  ?11,  ?12"
    );
    let one = vec![("a".to_string(), "TEXT".to_string())];
    assert_eq!(gen_value_list(&one), " ?1,  ?2");
    assert_eq!(gen_field_name_str(&one), "a");
}

#[test]
fn chosen_insert_without_user_list_names_the_columns() {
    let (_, column_list, table_name, primary_key) = gen_test_token_stream();
    assert_eq!(
        chosen::gen_insert_sql_statement(table_name, primary_key, &column_list, None),
        "INSERT INTO teststruct(  height, weight ) VALUES ( ?1,  ?2,  ?3)"
    );
}

#[test]
fn chosen_insert_keeps_positions_that_match() {
    let (_, column_list, table_name, primary_key) = gen_test_token_stream();
    // position 0 (primary key) and position 2 (weight) are kept, position 1 is not
    let index = vec![0, 5, 2];
    assert_eq!(
        chosen::gen_insert_sql_statement(table_name.clone(), primary_key.clone(), &column_list, Some(&index)),
        "INSERT INTO teststruct(  id, weight ) VALUES ( ?1,  ?2,  ?3)"
    );
    let all = vec![0, 1, 2];
    assert_eq!(
        chosen::gen_insert_sql_statement(table_name, primary_key, &column_list, Some(&all)),
        "INSERT INTO teststruct(  id,  height, weight ) VALUES ( ?1,  ?2,  ?3,  ?4)"
    );
}

#[test]
fn chosen_value_list() {
    assert_eq!(chosen::gen_value_list(&vec!["a", "b"]), " ?1,  ?2,  ?3");
    assert_eq!(chosen::gen_value_list(&vec![]), " ?1");
}

#[test]
fn insert_statement_does_not_depend_on_types() {
    let a = vec![("h".to_string(), "REAL".to_string()), ("w".to_string(), "REAL".to_string())];
    let b = vec![("h".to_string(), "TEXT".to_string()), ("w".to_string(), "BLOB".to_string())];
    let pk1 = ("id".to_string(), "X".to_string());
    let pk2 = ("id".to_string(), "Y".to_string());
    assert_eq!(gen_inser_sql_str(&a, "t", pk1.clone()), gen_inser_sql_str(&b, "t", pk2.clone()));
    let idx = vec![0, 1, 0];
    assert_eq!(
        chosen::gen_insert_sql_statement("t".to_string(), pk1, &a, Some(&idx)),
        chosen::gen_insert_sql_statement("t".to_string(), pk2, &b, Some(&idx))
    );
}
