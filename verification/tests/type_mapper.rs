use gen_sql_statement::gen_sql_statement_derive::database_config::get_mapper;
use gen_sql_statement::gen_sql_statement_derive::type_mapper::{PostgresTypeMapper, SqliteTypeMapper, TypeMapper};
use gen_sql_statement::struct_def::FieldType;

fn path(s: &str) -> FieldType {
    FieldType::Path(s.to_string())
}

#[test]
fn test_type_mapper() {
    // add all rust type name into the vec_ty_str
    let vec_ty_str = vec![
        "i32", "u32", "i64", "u64", "f32", "f64", "String", "str", "bool", "NaiveDate", "NaiveDateTime", "UuidBytes",
        "Hash", "Byte",
    ];
    let test_vec_ty = vec_ty_str.iter().map(|s| path(s)).collect::<Vec<_>>();

    // create a sqlite type mapper
    let sqlite_type_mapper = SqliteTypeMapper;
    // create a postgres type mapper
    let postgres_type_mapper = PostgresTypeMapper;

    // test the type mapper
    for (i, ty) in test_vec_ty.iter().enumerate() {
        let postgres_type_name = postgres_type_mapper.map_type(ty);
        let sqlite_type_name = sqlite_type_mapper.map_type(ty);
        println!("{} -> postgres: {}, sqlite: {}", vec_ty_str[i], postgres_type_name, sqlite_type_name);
    }
}

#[test]
fn sqlite_mapping_table() {
    let m = SqliteTypeMapper;
    let expected = [
        ("i32", "INTEGER"), ("u32", "INTEGER"), ("i64", "INTEGER"), ("u64", "INTEGER"),
        ("f32", "REAL"), ("f64", "REAL"), ("String", "TEXT"), ("str", "TEXT"), ("bool", "INTEGER"),
        ("NaiveDate", "TEXT"), ("NaiveDateTime", "TEXT"), ("UuidBytes", "BLOB"), ("Hash", "BLOB"),
        ("Byte", "BLOB"), ("Vec", "TEXT"), ("u8", "TEXT"),
    ];
    for (rust, sql) in expected {
        assert_eq!(m.map_type(&path(rust)), sql, "{}", rust);
    }
    assert_eq!(m.map_type(&FieldType::Other), "TEXT");
}

#[test]
fn postgres_mapping_table() {
    let m = PostgresTypeMapper;
    let expected = [
        ("i32", "INTEGER"), ("u32", "INTEGER"), ("i64", "INTEGER"), ("u64", "INTEGER"),
        ("f32", "REAL"), ("f64", "REAL"), ("String", "TEXT"), ("str", "TEXT"), ("bool", "BOOLEAN"),
        ("NaiveDate", "DATE"), ("NaiveDateTime", "TIMESTAMP"), ("UuidBytes", "BYTEA"), ("Hash", "BYTEA"),
        ("Byte", "BYTEA"), ("Option", "TEXT"),
    ];
    for (rust, sql) in expected {
        assert_eq!(m.map_type(&path(rust)), sql, "{}", rust);
    }
    assert_eq!(m.map_type(&FieldType::Other), "TEXT");
}

#[test]
fn map_type_all_keeps_order() {
    let tys = vec![path("bool"), FieldType::Other, path("f64")];
    assert_eq!(
        SqliteTypeMapper.map_type_all(&tys),
        vec!["INTEGER".to_string(), "TEXT".to_string(), "REAL".to_string()]
    );
    assert_eq!(
        PostgresTypeMapper.map_type_all(&tys),
        vec!["BOOLEAN".to_string(), "TEXT".to_string(), "REAL".to_string()]
    );
    assert_eq!(get_mapper().map_type(&path("Hash")), "BLOB");
}
