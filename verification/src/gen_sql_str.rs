//! functions to generate SQL strings
use vstd::prelude::*;
use vstd::string::*;
use crate::struct_def::{
    FieldType, StructDef, lemma_marker_names, scan_def, fields_of, name_of, pk_marked,
    first_pk_field, lemma_first_pk_field_none, law_accepted_input_has_at_most_one_primary_key,
};
use crate::text::{str_eq, strings_view, lemma_contains_take_step, decimal, usize_to_decimal};
use crate::field_processor::{
    FieldProcessor, FieldProcessorView, FieldInfoView, column_names_of, sql_types_of,
    spec_processor,
};
use crate::gen_sql_statement_derive::database_config::{
    DATABASE_PALCE_HOLDER, DEFAULT_PRIMARY_KEY_SQL_STR, get_mapper,
};
use crate::gen_sql_statement_derive::gen_sql_str::gen_insert_sql_str::sql_join;
use crate::gen_sql_statement_derive::type_mapper::{TypeMapper, sqlite_type_name};

verus! {

/// Where no field is marked as the primary key, the column names must leave
/// one of `id` and `autoincrement` free for the default primary key.
pub open spec fn primary_key_sql_ok(
    field_names: Seq<Seq<char>>,
    primary_key: Option<(Seq<char>, FieldType)>,
) -> bool {
    primary_key is Some || !(field_names.contains("id"@) && field_names.contains(
        "autoincrement"@,
    ))
}

/// The column definition of the primary key, followed by `", "`: the marked
/// field with its type, else a default key named `id`, or `autoincrement`
/// where a column already takes the name `id`.
pub open spec fn spec_primary_key_sql_str(
    field_names: Seq<Seq<char>>,
    primary_key: Option<(Seq<char>, FieldType)>,
) -> Seq<char> {
    match primary_key {
        Some(p) => p.0 + " "@ + sqlite_type_name(p.1) + " PRIMARY KEY, "@,
        None => if field_names.contains("id"@) {
            "autoincrement  "@ + DEFAULT_PRIMARY_KEY_SQL_STR@ + ", "@
        } else {
            "id "@ + DEFAULT_PRIMARY_KEY_SQL_STR@ + ", "@
        },
    }
}

/// `"name type, "` for the first `n` columns.
pub open spec fn field_type_items(names: Seq<Seq<char>>, types: Seq<Seq<char>>, n: nat) -> Seq<
    char,
>
    decreases n,
{
    if n == 0 {
        Seq::empty()
    } else {
        field_type_items(names, types, (n - 1) as nat) + names[n - 1] + " "@ + types[n - 1]
            + ", "@
    }
}

/// The column definitions `"name type"`, separated by `", "`.
pub open spec fn spec_sql_str_field_type(names: Seq<Seq<char>>, types: Seq<Seq<char>>) -> Seq<
    char,
> {
    field_type_items(names, types, (names.len() - 1) as nat) + names.last() + " "@ + types[names.len()
        - 1]
}

/// A table statement can be made from the processor: it has a column besides
/// the primary key, and a primary key can be named.
pub open spec fn create_table_ok(p: FieldProcessorView) -> bool {
    column_names_of(p.fields, false).len() > 0 && primary_key_sql_ok(
        column_names_of(p.fields, false),
        p.primary_key,
    )
}

/// The statement that creates the table for the processed struct.
pub open spec fn spec_create_table_sql(table_name: Seq<char>, p: FieldProcessorView) -> Seq<char> {
    "CREATE TABLE IF NOT EXISTS "@ + table_name + " "@ + "("@ + spec_primary_key_sql_str(
        column_names_of(p.fields, false),
        p.primary_key,
    ) + spec_sql_str_field_type(column_names_of(p.fields, false), sql_types_of(p.fields, false))
        + " )"@
}

/// The columns and their types come in pairs.
pub proof fn lemma_names_types_same_len(fields: Seq<FieldInfoView>, with_primary_key: bool)
    ensures
        column_names_of(fields, with_primary_key).len() == sql_types_of(
            fields,
            with_primary_key,
        ).len(),
    decreases fields.len(),
{
    if fields.len() > 0 {
        lemma_names_types_same_len(fields.drop_last(), with_primary_key);
    }
}

/// Tells whether `create_table_sql_str` can make a statement from the processor.
pub fn can_create_table(field_processor: &FieldProcessor) -> (r: bool)
    ensures
        r == create_table_ok(field_processor@),
{
    let column_list = field_processor.get_column_list_without_primary_key();
    if column_list.len() == 0 {
        return false;
    }
    if field_processor.get_primary_key().is_some() {
        return true;
    }
    let (has_id, has_autoincrement) = check_id_or_autoincrement(&column_list);
    !(has_id && has_autoincrement)
}

/// The statement that creates the table for the struct, like
/// `CREATE TABLE IF NOT EXISTS test (id INTEGER PRIMARY KEY, name TEXT, age INTEGER )`.
pub fn create_table_sql_str(table_name: String, field_processor: &FieldProcessor) -> (r: String)
    requires
        create_table_ok(field_processor@),
    ensures
        r@ == spec_create_table_sql(table_name@, field_processor@),
{
    //get the column list except the primary key field
    let column_list = field_processor.get_column_list_without_primary_key();
    let sql_type_list = field_processor.get_sql_type_list_without_primary_key();
    proof {
        lemma_names_types_same_len(field_processor@.fields, false);
    }
    let mut part1 = String::from_str("CREATE TABLE IF NOT EXISTS ");
    part1.append(table_name.as_str());
    part1.append(" ");
    let mut part2 = String::from_str("(");
    let part_primary_key_sql_str = get_primary_key_sql_str(
        &column_list,
        &field_processor.get_primary_key(),
    );
    part2.append(part_primary_key_sql_str.as_str());
    let part3 = sql_str_field_type(&column_list, &sql_type_list);
    part2.append(part3.as_str());
    part2.append(" )");
    part1.append(part2.as_str());
    part1
}

/// a helper to find if the "id" or "autoincrement" field is in vector of String
fn check_id_or_autoincrement(field_names: &Vec<String>) -> (r: (bool, bool))
    ensures
        r.0 == strings_view(field_names@).contains("id"@),
        r.1 == strings_view(field_names@).contains("autoincrement"@),
{
    let ghost names = strings_view(field_names@);
    let mut has_id = false;
    let mut has_autoincrement = false;
    let mut i: usize = 0;
    while i < field_names.len()
        invariant
            names == strings_view(field_names@),
            i <= field_names@.len(),
            has_id == names.take(i as int).contains("id"@),
            has_autoincrement == names.take(i as int).contains("autoincrement"@),
        decreases field_names@.len() - i,
    {
        proof {
            lemma_contains_take_step(names, i as int, "id"@);
            lemma_contains_take_step(names, i as int, "autoincrement"@);
            lemma_marker_names();
        }
        let name = field_names[i].as_str();
        if str_eq(name, "id") {
            has_id = true;
        } else if str_eq(name, "autoincrement") {
            has_autoincrement = true;
        }
        i = i + 1;
    }
    proof {
        assert(names.take(i as int) =~= names);
    }
    (has_id, has_autoincrement)
}

/// a helper to generate a suitable primary key string
/// like: "id INTEGER PRIMARY KEY, " for a marked field, or, where no field is marked,
/// "id  INTEGER PRIMARY KEY AUTOINCREMENT , " or "autoincrement   INTEGER PRIMARY KEY AUTOINCREMENT , "
fn get_primary_key_sql_str(
    field_names: &Vec<String>,
    primary_key_name: &Option<(String, FieldType)>,
) -> (r: String)
    requires
        primary_key_sql_ok(
            strings_view(field_names@),
            match primary_key_name {
                Some(p) => Some((p.0@, p.1)),
                None => None,
            },
        ),
    ensures
        r@ == spec_primary_key_sql_str(
            strings_view(field_names@),
            match primary_key_name {
                Some(p) => Some((p.0@, p.1)),
                None => None,
            },
        ),
{
    match primary_key_name {
        Some(p) => {
            let mapper = get_mapper();
            let sql_type = mapper.map_type(&p.1);
            let mut s = p.0.clone();
            s.append(" ");
            s.append(sql_type);
            s.append(" PRIMARY KEY, ");
            s
        },
        None => {
            let (has_id, has_autoincrement) = check_id_or_autoincrement(field_names);
            if has_id {
                let mut s = String::from_str("autoincrement  ");
                s.append(DEFAULT_PRIMARY_KEY_SQL_STR);
                s.append(", ");
                s
            } else {
                let mut s = String::from_str("id ");
                s.append(DEFAULT_PRIMARY_KEY_SQL_STR);
                s.append(", ");
                s
            }
        },
    }
}

/// The numbered placeholders `?1` to `?total`, separated by `", "`.
pub open spec fn numbered_placeholders(total: nat) -> Seq<Seq<char>> {
    Seq::new(total, |k: int| DATABASE_PALCE_HOLDER@ + decimal((k + 1) as nat))
}

/// a helper funtion to construct a string like "?1, ?2, ?3": the placeholders
/// numbered from 1 to `totol`, separated by `", "`
pub fn palce_holder_and_number_str(totol: usize) -> (r: String)
    ensures
        r@ == sql_join(numbered_placeholders(totol as nat), ", "@),
{
    let mut s = String::new();
    let mut index: usize = 0;
    while index < totol
        invariant
            index <= totol,
            s@ == sql_join(numbered_placeholders(totol as nat).take(index as int), ", "@),
        decreases totol - index,
    {
        let ghost items = numbered_placeholders(totol as nat);
        proof {
            assert(items.take(index + 1).drop_last() =~= items.take(index as int));
            assert(items.take(index + 1).last() == items[index as int]);
            assert(items.take(0) =~= Seq::<Seq<char>>::empty());
            if index == 0 {
                assert(items.take(1)[0] == items[0]);
            }
        }
        if index != 0 {
            s.append(", ");
        }
        s.append(DATABASE_PALCE_HOLDER);
        s.append(usize_to_decimal(index + 1).as_str());
        index = index + 1;
    }
    proof {
        assert(numbered_placeholders(totol as nat).take(index as int) =~= numbered_placeholders(
            totol as nat,
        ));
    }
    s
}

/// a helper function to generate a string like "name TEXT, age INTEGER"
/// # Arguments
///  * `field_names_with_no_primary_key` - the vector of field names, except the primary key field.
///  * `sql_type_list_with_no_primary_key` - the vector of sql types, except the primary key field.
fn sql_str_field_type(
    field_names_with_no_primary_key: &Vec<String>,
    sql_type_list_with_no_primary_key: &Vec<String>,
) -> (r: String)
    requires
        field_names_with_no_primary_key@.len() > 0,
        sql_type_list_with_no_primary_key@.len() >= field_names_with_no_primary_key@.len(),
    ensures
        r@ == spec_sql_str_field_type(
            strings_view(field_names_with_no_primary_key@),
            strings_view(sql_type_list_with_no_primary_key@),
        ),
{
    let ghost names = strings_view(field_names_with_no_primary_key@);
    let ghost types = strings_view(sql_type_list_with_no_primary_key@);
    let len = field_names_with_no_primary_key.len();
    let mut ret = String::new();
    let mut i: usize = 0;
    while i < len - 1
        invariant
            names == strings_view(field_names_with_no_primary_key@),
            types == strings_view(sql_type_list_with_no_primary_key@),
            len == field_names_with_no_primary_key@.len(),
            0 < len <= sql_type_list_with_no_primary_key@.len(),
            i <= len - 1,
            ret@ == field_type_items(names, types, i as nat),
        decreases len - 1 - i,
    {
        let mut temp = field_names_with_no_primary_key[i].clone();
        temp.append(" ");
        temp.append(sql_type_list_with_no_primary_key[i].as_str());
        temp.append(", ");
        ret.append(temp.as_str());
        i = i + 1;
    }
    let mut temp = field_names_with_no_primary_key[len - 1].clone();
    temp.append(" ");
    temp.append(sql_type_list_with_no_primary_key[len - 1].as_str());
    ret.append(temp.as_str());
    ret
}


/// The name of the primary key column that `create_table_sql_str` adds where
/// no field is marked: `id`, or `autoincrement` where a column is named `id`.
pub open spec fn default_key_name(field_names: Seq<Seq<char>>) -> Seq<char> {
    if field_names.contains("id"@) {
        "autoincrement"@
    } else {
        "id"@
    }
}

/// Where no field is marked, the statement's primary key column is named
/// after the default key, and no other column of an accepted processor has
/// that name.
pub proof fn law_default_key_is_free(field_names: Seq<Seq<char>>)
    requires
        primary_key_sql_ok(field_names, None),
    ensures
        !field_names.contains(default_key_name(field_names)),
        spec_primary_key_sql_str(field_names, None).take(default_key_name(field_names).len() as int)
            == default_key_name(field_names),
{
    let key = default_key_name(field_names);
    let s = spec_primary_key_sql_str(field_names, None);
    reveal_strlit("id");
    reveal_strlit("id ");
    reveal_strlit("autoincrement");
    reveal_strlit("autoincrement  ");
    assert(s.take(key.len() as int) =~= key);
}


/// Where a field `k: ty` is marked `#[primary_key]`, the statement that creates
/// the table begins by declaring that column as `k`, the SQLite type that the
/// type mapper gives `ty` (the mapping every other column gets), and
/// `PRIMARY KEY`.
pub proof fn law_marked_key_column_has_its_mapped_type(table_name: Seq<char>, def: StructDef, i: int)
    requires
        scan_def(def) is Ok,
        0 <= i < fields_of(def).len(),
        pk_marked(fields_of(def)[i]),
    ensures
        ({
            let head = "CREATE TABLE IF NOT EXISTS "@ + table_name + " "@ + "("@ + name_of(
                fields_of(def)[i],
            ) + " "@ + sqlite_type_name(fields_of(def)[i].ty) + " PRIMARY KEY, "@;
            spec_create_table_sql(table_name, spec_processor(def)).take(head.len() as int)
                == head
        }),
{
    let fs = fields_of(def);
    law_accepted_input_has_at_most_one_primary_key(def);
    lemma_first_pk_field_none(fs);
    let f = first_pk_field(fs)->0;
    let j = choose|j: int| 0 <= j < fs.len() && #[trigger] fs[j] == f;
    assert(j == i);
    let head = "CREATE TABLE IF NOT EXISTS "@ + table_name + " "@ + "("@ + name_of(fs[i]) + " "@
        + sqlite_type_name(fs[i].ty) + " PRIMARY KEY, "@;
    let whole = spec_create_table_sql(table_name, spec_processor(def));
    let p = spec_processor(def);
    assert(whole == head + spec_sql_str_field_type(column_names_of(p.fields, false), sql_types_of(
        p.fields,
        false,
    )) + " )"@);
    assert(whole.take(head.len() as int) =~= head);
}

} // verus!
