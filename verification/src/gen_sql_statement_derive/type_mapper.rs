//! Maps the type of a struct's field to the SQL type of its column, according
//! to the database system.
use vstd::prelude::*;
use vstd::string::*;
use crate::struct_def::FieldType;
use crate::text::{str_eq, strings_view};

verus! {

/// The identifier of the last segment of a path type, or `None` for other types.
pub open spec fn type_ident(ty: FieldType) -> Option<Seq<char>> {
    match ty {
        FieldType::Path(s) => Some(s@),
        FieldType::Other => None,
    }
}

/// The SQL type that PostgreSQL stores a Rust type as.
pub open spec fn postgres_type_name(ty: FieldType) -> Seq<char> {
    match type_ident(ty) {
        Some(n) => if n == "i32"@ || n == "u32"@ || n == "i64"@ || n == "u64"@ {
            "INTEGER"@
        } else if n == "f32"@ || n == "f64"@ {
            "REAL"@
        } else if n == "String"@ || n == "str"@ {
            "TEXT"@
        } else if n == "bool"@ {
            "BOOLEAN"@
        } else if n == "NaiveDate"@ {
            "DATE"@
        } else if n == "NaiveDateTime"@ {
            "TIMESTAMP"@
        } else if n == "UuidBytes"@ || n == "Hash"@ || n == "Byte"@ {
            "BYTEA"@
        } else {
            "TEXT"@
        },
        None => "TEXT"@,
    }
}

/// The SQL type that SQLite stores a Rust type as.
pub open spec fn sqlite_type_name(ty: FieldType) -> Seq<char> {
    match type_ident(ty) {
        Some(n) => if n == "i32"@ || n == "u32"@ || n == "i64"@ || n == "u64"@ {
            "INTEGER"@
        } else if n == "f32"@ || n == "f64"@ {
            "REAL"@
        } else if n == "String"@ || n == "str"@ {
            "TEXT"@
        } else if n == "bool"@ {
            "INTEGER"@
        } else if n == "NaiveDate"@ || n == "NaiveDateTime"@ {
            "TEXT"@
        } else if n == "UuidBytes"@ || n == "Hash"@ || n == "Byte"@ {
            "BLOB"@
        } else {
            "TEXT"@
        },
        None => "TEXT"@,
    }
}

/// Map rust type to corresponding sql type, according to your database system.
pub trait TypeMapper {
    /// The SQL type that this mapper gives a Rust type.
    spec fn spec_map_type(&self, ty: FieldType) -> Seq<char>;

    /// Convert rust type to sql type.
    fn map_type(&self, ty: &FieldType) -> (r: &'static str)
        ensures
            r@ == self.spec_map_type(*ty),
    ;

    /// Convert each of the types, in order.
    fn map_type_all(&self, tys: &Vec<FieldType>) -> (r: Vec<String>)
        ensures
            strings_view(r@) == tys@.map_values(|t: FieldType| self.spec_map_type(t)),
    {
        let mut r: Vec<String> = Vec::new();
        let mut i: usize = 0;
        while i < tys.len()
            invariant
                i <= tys@.len(),
                strings_view(r@) == tys@.take(i as int).map_values(
                    |t: FieldType| self.spec_map_type(t),
                ),
            decreases tys@.len() - i,
        {
            let s = String::from_str(self.map_type(&tys[i]));
            proof {
                crate::text::lemma_strings_view_push(r@, s);
                assert(tys@.take(i + 1).map_values(|t: FieldType| self.spec_map_type(t))
                    =~= tys@.take(i as int).map_values(|t: FieldType| self.spec_map_type(t)).push(
                    self.spec_map_type(tys@[i as int]),
                ));
            }
            r.push(s);
            i = i + 1;
        }
        assert(tys@.take(i as int) =~= tys@);
        r
    }
}

/// This is the TypeMapper for postgres
pub struct PostgresTypeMapper;

impl TypeMapper for PostgresTypeMapper {
    open spec fn spec_map_type(&self, ty: FieldType) -> Seq<char> {
        postgres_type_name(ty)
    }

    fn map_type(&self, ty: &FieldType) -> (r: &'static str) {
        match ty {
            FieldType::Path(p) => {
                let n = p.as_str();
                if str_eq(n, "i32") || str_eq(n, "u32") || str_eq(n, "i64") || str_eq(n, "u64") {
                    "INTEGER"
                } else if str_eq(n, "f32") || str_eq(n, "f64") {
                    "REAL"
                } else if str_eq(n, "String") || str_eq(n, "str") {
                    "TEXT"
                } else if str_eq(n, "bool") {
                    "BOOLEAN"
                } else if str_eq(n, "NaiveDate") {
                    "DATE"
                } else if str_eq(n, "NaiveDateTime") {
                    "TIMESTAMP"
                } else if str_eq(n, "UuidBytes") || str_eq(n, "Hash") || str_eq(n, "Byte") {
                    "BYTEA"
                } else {
                    "TEXT"
                }
            },
            FieldType::Other => "TEXT",
        }
    }
}

/// This is the TypeMapper for sqlite
pub struct SqliteTypeMapper;

impl TypeMapper for SqliteTypeMapper {
    open spec fn spec_map_type(&self, ty: FieldType) -> Seq<char> {
        sqlite_type_name(ty)
    }

    fn map_type(&self, ty: &FieldType) -> (r: &'static str) {
        match ty {
            FieldType::Path(p) => {
                let n = p.as_str();
                if str_eq(n, "i32") || str_eq(n, "u32") || str_eq(n, "i64") || str_eq(n, "u64") {
                    "INTEGER"
                } else if str_eq(n, "f32") || str_eq(n, "f64") {
                    "REAL"
                } else if str_eq(n, "String") || str_eq(n, "str") {
                    "TEXT"
                } else if str_eq(n, "bool") {
                    "INTEGER"
                } else if str_eq(n, "NaiveDate") || str_eq(n, "NaiveDateTime") {
                    "TEXT"
                } else if str_eq(n, "UuidBytes") || str_eq(n, "Hash") || str_eq(n, "Byte") {
                    "BLOB"
                } else {
                    "TEXT"
                }
            },
            FieldType::Other => "TEXT",
        }
    }
}

} // verus!
