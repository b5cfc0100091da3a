use gen_sql_statement::field_processor::FieldProcessor;
use gen_sql_statement::gen_sql_str::create_table_sql_str;
use gen_sql_statement::struct_def::{DataDef, FieldDef, FieldType, StructDef};

fn field(name: &str, ty: &str) -> FieldDef {
    FieldDef { ident: Some(name.to_string()), ty: FieldType::Path(ty.to_string()), attrs: vec![] }
}

#[test]
fn exprot_text() {
    // struct MyStruct { pub field1: i32, field2: String }
    let test = StructDef {
        ident: "MyStruct".to_string(),
        generics: syn::Generics::default(),
        data: DataDef::Struct(vec![field("field1", "i32"), field("field2", "String")]),
    };
    let fp = FieldProcessor::new(&test);
    let sql = create_table_sql_str(fp.get_struct_ident(), &fp);
    println!("SQL: {}", sql);
}
