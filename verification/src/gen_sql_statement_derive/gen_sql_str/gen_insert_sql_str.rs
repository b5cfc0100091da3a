//! The insert statement for a table and its columns.
use vstd::prelude::*;
use vstd::string::*;
use crate::text::{decimal, usize_to_decimal};
use crate::gen_sql_statement_derive::database_config::DATABASE_PALCE_HOLDER;

verus! {

/// The names of a column list, in order.
pub open spec fn column_names(cols: Seq<(String, String)>) -> Seq<Seq<char>> {
    cols.map_values(|p: (String, String)| p.0@)
}

/// `" name, "` for each name, in order.
pub open spec fn name_items(names: Seq<Seq<char>>) -> Seq<char>
    decreases names.len(),
{
    if names.len() == 0 {
        Seq::empty()
    } else {
        name_items(names.drop_last()) + " "@ + names.last() + ", "@
    }
}

/// The names joined as the insert statement lists them: `" a,  b, c"` for
/// `[a, b, c]`; every name but the last is written as `" name, "`.
pub open spec fn spec_field_name_str(names: Seq<Seq<char>>) -> Seq<char>
    recommends
        names.len() > 0,
{
    name_items(names.drop_last()) + names.last()
}

/// One numbered placeholder: `" ?k"`.
pub open spec fn placeholder(k: nat) -> Seq<char> {
    " "@ + DATABASE_PALCE_HOLDER@ + decimal(k)
}

/// `" ?k, "` for `k` from 1 to `n`.
pub open spec fn value_items(n: nat) -> Seq<char>
    decreases n,
{
    if n == 0 {
        Seq::empty()
    } else {
        value_items((n - 1) as nat) + placeholder(n) + ", "@
    }
}

/// The value list for `n` columns: placeholders numbered 1 to `n + 1`, one
/// more than the columns, for the primary key.
pub open spec fn spec_value_list(n: nat) -> Seq<char> {
    value_items(n) + placeholder(n + 1)
}

/// The insert statement that `gen_inser_sql_str` writes.
pub open spec fn spec_insert_sql(
    cols: Seq<(String, String)>,
    table_name: Seq<char>,
    primary_key: Seq<char>,
) -> Seq<char> {
    "INSERT INTO "@ + table_name + "( "@ + primary_key + ", "@ + spec_field_name_str(
        column_names(cols),
    ) + " )"@ + " VALUES ("@ + spec_value_list(cols.len()) + ")"@
}

/// Items joined by a separator.
pub open spec fn sql_join(items: Seq<Seq<char>>, sep: Seq<char>) -> Seq<char>
    decreases items.len(),
{
    if items.len() == 0 {
        Seq::empty()
    } else if items.len() == 1 {
        items[0]
    } else {
        sql_join(items.drop_last(), sep) + sep + items.last()
    }
}

/// The placeholders `" ?1"` to `" ?m"`.
pub open spec fn placeholders(m: nat) -> Seq<Seq<char>> {
    Seq::new(m, |k: int| placeholder((k + 1) as nat))
}

/// The value list for `n` columns is the `n + 1` numbered placeholders, in
/// order, separated by commas.
pub proof fn lemma_value_list_is_placeholders(n: nat)
    ensures
        spec_value_list(n) == sql_join(placeholders(n + 1), ", "@),
    decreases n,
{
    if n == 0 {
        assert(value_items(0) =~= Seq::<char>::empty());
        assert(spec_value_list(0) =~= placeholder(1));
    } else {
        lemma_value_list_is_placeholders((n - 1) as nat);
        assert(placeholders(n + 1).drop_last() =~= placeholders(n));
        assert(placeholders(n + 1).last() == placeholder(n + 1));
        assert(spec_value_list(n) =~= spec_value_list((n - 1) as nat) + ", "@ + placeholder(
            n + 1,
        ));
    }
}

/// An insert statement written by `gen_inser_sql_str` names the primary key
/// and then each column, and binds them to as many placeholders, numbered from
/// 1 in the same order.
pub proof fn law_insert_binds_every_column(
    cols: Seq<(String, String)>,
    table_name: Seq<char>,
    primary_key: Seq<char>,
)
    ensures
        spec_insert_sql(cols, table_name, primary_key) == "INSERT INTO "@ + table_name + "( "@
            + primary_key + ", "@ + spec_field_name_str(column_names(cols)) + " )"@
            + " VALUES ("@ + sql_join(placeholders((seq![primary_key] + column_names(cols)).len()), ", "@)
            + ")"@,
{
    lemma_value_list_is_placeholders(cols.len());
    assert((seq![primary_key] + column_names(cols)).len() == cols.len() + 1);
}

///Thi function was used to generate the insert sql string for the given table and columns.
pub fn gen_inser_sql_str(
    column_list: &Vec<(String, String)>,
    table_name: &str,
    primary_key: (String, String),
) -> (r: String)
    requires
        0 < column_list@.len() < usize::MAX,
    ensures
        r@ == spec_insert_sql(column_list@, table_name@, primary_key.0@),
{
    let mut ret = String::from_str("INSERT INTO ");
    ret.append(table_name);
    let mut s = String::from_str("( ");
    s.append(primary_key.0.as_str());
    s.append(", ");
    s.append(gen_field_name_str(column_list).as_str());
    s.append(" )");
    ret.append(s.as_str());
    let mut s2 = String::from_str(" VALUES (");
    s2.append(gen_value_list(column_list).as_str());
    s2.append(")");
    ret.append(s2.as_str());
    ret
}

/// function to generate string like " id,  name, age" with a given list of names:
/// every name but the last written as `" name, "`, then the last name.
pub fn gen_field_name_str(column_list: &Vec<(String, String)>) -> (r: String)
    requires
        column_list@.len() > 0,
    ensures
        r@ == spec_field_name_str(column_names(column_list@)),
{
    let mut ret = String::new();
    let len = column_list.len();
    let ghost names = column_names(column_list@);
    let mut i: usize = 0;
    while i < len - 1
        invariant
            len == column_list@.len(),
            names == column_names(column_list@),
            0 < len,
            i <= len - 1,
            ret@ == name_items(names.take(i as int)),
        decreases len - 1 - i,
    {
        proof {
            assert(names.take(i + 1).drop_last() =~= names.take(i as int));
            assert(names.take(i + 1).last() == column_list@[i as int].0@);
        }
        let mut temp = String::from_str(" ");
        temp.append(column_list[i].0.as_str());
        temp.append(", ");
        ret.append(temp.as_str());
        i = i + 1;
    }
    ret.append(column_list[len - 1].0.as_str());
    proof {
        assert(names.take(i as int) =~= names.drop_last());
    }
    ret
}

/// The value list for a column list of `n` columns: the placeholders `?1` to
/// `?(n + 1)`, one more than the columns for the primary key, each written as
/// `" ?k"` and separated by `", "`: `" ?1,  ?2,  ?3"` for two columns.
pub fn gen_value_list(column_list: &Vec<(String, String)>) -> (r: String)
    requires
        column_list@.len() < usize::MAX,
    ensures
        r@ == spec_value_list(column_list@.len()),
{
    let mut ret = String::new();
    let len = column_list.len();
    let mut i: usize = 0;
    while i < len
        invariant
            len == column_list@.len() < usize::MAX,
            i <= len,
            ret@ == value_items(i as nat),
        decreases len - i,
    {
        let mut temp = String::from_str(" ");
        temp.append(DATABASE_PALCE_HOLDER);
        temp.append(usize_to_decimal(i + 1).as_str());
        temp.append(", ");
        ret.append(temp.as_str());
        i = i + 1;
    }
    let mut last = String::from_str(" ");
    last.append(DATABASE_PALCE_HOLDER);
    last.append(usize_to_decimal(len + 1).as_str());
    ret.append(last.as_str());
    ret
}


/// The SQL types of the columns never enter the insert statement: column
/// lists with the same names give the same statement.
pub proof fn law_insert_sql_ignores_sql_types(
    cols1: Seq<(String, String)>,
    cols2: Seq<(String, String)>,
    table_name: Seq<char>,
    primary_key: Seq<char>,
)
    requires
        column_names(cols1) == column_names(cols2),
    ensures
        spec_insert_sql(cols1, table_name, primary_key) == spec_insert_sql(
            cols2,
            table_name,
            primary_key,
        ),
{
    assert(cols1.len() == column_names(cols1).len());
    assert(cols2.len() == column_names(cols2).len());
}

} // verus!
