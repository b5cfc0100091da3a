//! The insert statement for a table, restricted to the columns a user chose.
use vstd::prelude::*;
use vstd::string::*;
use crate::text::{strs_view, lemma_strs_view_push, usize_to_decimal};
use crate::gen_sql_statement_derive::database_config::DATABASE_PALCE_HOLDER;
use crate::gen_sql_statement_derive::gen_sql_str::gen_insert_sql_str::{
    column_names, name_items, spec_field_name_str, value_items, spec_value_list,
};

verus! {

/// The names at the positions `p` of `all` for which `index[p] == p`, in order.
pub open spec fn selected_names(all: Seq<Seq<char>>, index: Seq<usize>) -> Seq<Seq<char>>
    decreases all.len(),
{
    if all.len() == 0 {
        Seq::empty()
    } else {
        let rest = selected_names(all.drop_last(), index);
        if index[all.len() - 1] == all.len() - 1 {
            rest.push(all.last())
        } else {
            rest
        }
    }
}

/// Selecting names keeps at most all of them.
pub proof fn lemma_selected_names_len(all: Seq<Seq<char>>, index: Seq<usize>)
    ensures
        selected_names(all, index).len() <= all.len(),
    decreases all.len(),
{
    if all.len() > 0 {
        lemma_selected_names_len(all.drop_last(), index);
    }
}

/// The names an insert statement lists: with a user's index list, those of
/// the primary key and the columns whose position the index list holds at that
/// same position; without one, every column but the primary key.
pub open spec fn insert_field_names(
    primary_key: Seq<char>,
    cols: Seq<(String, String)>,
    user_list_index: Option<Seq<usize>>,
) -> Seq<Seq<char>> {
    match user_list_index {
        Some(index) => selected_names(seq![primary_key] + column_names(cols), index),
        None => column_names(cols),
    }
}

/// The insert statement over a list of names: the names, then one more
/// placeholder than names.
pub open spec fn spec_insert_statement(table_name: Seq<char>, names: Seq<Seq<char>>) -> Seq<
    char,
> {
    "INSERT INTO "@ + table_name + "( "@ + spec_field_name_str(names) + " )"@ + " VALUES ("@
        + spec_value_list(names.len()) + ")"@
}

/// The contents of an optional index list.
pub open spec fn index_view(user_list_index: Option<&Vec<usize>>) -> Option<Seq<usize>> {
    match user_list_index {
        Some(v) => Some(v@),
        None => None,
    }
}

/// The insert statement for the table, listing the columns chosen by
/// `user_list_index` (see `insert_field_names`).
pub fn gen_insert_sql_statement(
    table_name: String,
    primary_key: (String, String),
    column_list: &Vec<(String, String)>,
    user_list_index: Option<&Vec<usize>>,
) -> (r: String)
    requires
        column_list@.len() + 1 < usize::MAX,
        user_list_index matches Some(index) ==> index@.len() > column_list@.len(),
        insert_field_names(primary_key.0@, column_list@, index_view(user_list_index)).len() > 0,
    ensures
        r@ == spec_insert_statement(
            table_name@,
            insert_field_names(primary_key.0@, column_list@, index_view(user_list_index)),
        ),
{
    let ghost all = seq![primary_key.0@] + column_names(column_list@);
    let mut insert_field_names: Vec<&str> = Vec::new();
    match user_list_index {
        Some(indexs) => {
            // the primary key comes first in the list, the columns follow
            proof {
                assert(all.take(1).drop_last() =~= all.take(0));
                assert(all.take(0) =~= Seq::<Seq<char>>::empty());
            }
            if 0 == indexs[0] {
                let name: &str = primary_key.0.as_str();
                proof {
                    lemma_strs_view_push(insert_field_names@, name);
                }
                insert_field_names.push(name);
            }
            proof {
                assert(all.take(1).last() == primary_key.0@);
                assert(selected_names(all.take(0), indexs@) =~= Seq::<Seq<char>>::empty());
            }
            let mut j: usize = 0;
            while j < column_list.len()
                invariant
                    all == seq![primary_key.0@] + column_names(column_list@),
                    indexs@.len() > column_list@.len(),
                    j <= column_list@.len(),
                    strs_view(insert_field_names@) == selected_names(
                        all.take(j + 1),
                        indexs@,
                    ),
                decreases column_list@.len() - j,
            {
                let counter = j + 1;
                proof {
                    assert(all.take(counter + 1).drop_last() =~= all.take(counter as int));
                    assert(all.take(counter + 1).last() == column_list@[j as int].0@);
                }
                if counter == indexs[counter] {
                    let name: &str = column_list[j].0.as_str();
                    proof {
                        lemma_strs_view_push(insert_field_names@, name);
                    }
                    insert_field_names.push(name);
                }
                j = j + 1;
            }
            proof {
                assert(all.take(j + 1) =~= all);
            }
        },
        None => {
            let mut j: usize = 0;
            while j < column_list.len()
                invariant
                    j <= column_list@.len(),
                    strs_view(insert_field_names@) == column_names(column_list@).take(j as int),
                decreases column_list@.len() - j,
            {
                let name: &str = column_list[j].0.as_str();
                proof {
                    lemma_strs_view_push(insert_field_names@, name);
                    assert(column_names(column_list@).take(j + 1) =~= column_names(
                        column_list@,
                    ).take(j as int).push(column_list@[j as int].0@));
                }
                insert_field_names.push(name);
                j = j + 1;
            }
            proof {
                assert(column_names(column_list@).take(j as int) =~= column_names(column_list@));
            }
        },
    }
    proof {
        lemma_selected_names_len(all, index_view(user_list_index).unwrap_or(Seq::empty()));
        assert(column_names(column_list@).len() == column_list@.len());
    }
    let mut ret = String::from_str("INSERT INTO ");
    ret.append(table_name.as_str());
    let mut s = String::from_str("( ");
    s.append(gen_field_name_str(&insert_field_names).as_str());
    s.append(" )");
    ret.append(s.as_str());
    let mut s2 = String::from_str(" VALUES (");
    s2.append(gen_value_list(&insert_field_names).as_str());
    s2.append(")");
    ret.append(s2.as_str());
    ret
}

/// function to generate string like " id,  name, age" with a given list of names:
/// every name but the last written as `" name, "`, then the last name.
pub fn gen_field_name_str(list: &Vec<&str>) -> (r: String)
    requires
        list@.len() > 0,
    ensures
        r@ == spec_field_name_str(strs_view(list@)),
{
    let mut ret = String::new();
    let len = list.len();
    let ghost names = strs_view(list@);
    let mut i: usize = 0;
    while i < len - 1
        invariant
            len == list@.len(),
            names == strs_view(list@),
            0 < len,
            i <= len - 1,
            ret@ == name_items(names.take(i as int)),
        decreases len - 1 - i,
    {
        proof {
            assert(names.take(i + 1).drop_last() =~= names.take(i as int));
            assert(names.take(i + 1).last() == list@[i as int]@);
        }
        let mut temp = String::from_str(" ");
        temp.append(list[i]);
        temp.append(", ");
        ret.append(temp.as_str());
        i = i + 1;
    }
    ret.append(list[len - 1]);
    proof {
        assert(names.take(i as int) =~= names.drop_last());
    }
    ret
}

/// The value list for `n` names: the placeholders `?1` to `?(n + 1)`, each
/// written as `" ?k"` and separated by `", "`: `" ?1,  ?2,  ?3"` for two names.
pub fn gen_value_list(list: &Vec<&str>) -> (r: String)
    requires
        list@.len() < usize::MAX,
    ensures
        r@ == spec_value_list(list@.len()),
{
    let mut ret = String::new();
    let len = list.len();
    let mut i: usize = 0;
    while i < len
        invariant
            len == list@.len() < usize::MAX,
            i <= len,
            ret@ == value_items(i as nat),
        decreases len - i,
    {
        let mut temp = String::from_str(" ");
        temp.append(DATABASE_PALCE_HOLDER);
        temp.append(usize_to_decimal(i + 1).as_str());
        temp.append(", ");
        ret.append(temp.as_str());
        i = i + 1;
    }
    let mut last = String::from_str(" ");
    last.append(DATABASE_PALCE_HOLDER);
    last.append(usize_to_decimal(len + 1).as_str());
    ret.append(last.as_str());
    ret
}


/// The SQL types of the columns never enter the insert statement: column
/// lists with the same names give the same statement.
pub proof fn law_insert_statement_ignores_sql_types(
    table_name: Seq<char>,
    primary_key: Seq<char>,
    cols1: Seq<(String, String)>,
    cols2: Seq<(String, String)>,
    user_list_index: Option<Seq<usize>>,
)
    requires
        column_names(cols1) == column_names(cols2),
    ensures
        spec_insert_statement(table_name, insert_field_names(primary_key, cols1, user_list_index))
            == spec_insert_statement(
            table_name,
            insert_field_names(primary_key, cols2, user_list_index),
        ),
{
}

/// `names` lists the entries of `all` at the positions `ps`, in increasing
/// order, and `ps` holds exactly the positions `p` of `all` with `index[p] == p`.
pub open spec fn lists_chosen_positions(
    names: Seq<Seq<char>>,
    all: Seq<Seq<char>>,
    index: Seq<usize>,
    ps: Seq<int>,
) -> bool {
    &&& ps.len() == names.len()
    &&& forall|k: int|
        0 <= k < ps.len() ==> 0 <= #[trigger] ps[k] < all.len() && index[ps[k]] == ps[k]
            && names[k] == all[ps[k]]
    &&& forall|k: int, l: int| 0 <= k < l < ps.len() ==> ps[k] < ps[l]
    &&& forall|p: int| 0 <= p < all.len() && index[p] == p ==> ps.contains(p)
}

/// The positions `p < n` with `index[p] == p`, in increasing order.
pub open spec fn chosen_positions(n: nat, index: Seq<usize>) -> Seq<int>
    decreases n,
{
    if n == 0 {
        Seq::empty()
    } else {
        let rest = chosen_positions((n - 1) as nat, index);
        if index[n - 1] == n - 1 {
            rest.push(n - 1)
        } else {
            rest
        }
    }
}

proof fn lemma_chosen_positions_below(n: nat, index: Seq<usize>)
    ensures
        forall|k: int|
            0 <= k < chosen_positions(n, index).len() ==> 0 <= #[trigger] chosen_positions(
                n,
                index,
            )[k] < n,
    decreases n,
{
    if n > 0 {
        lemma_chosen_positions_below((n - 1) as nat, index);
        let ps0 = chosen_positions((n - 1) as nat, index);
        let ps = chosen_positions(n, index);
        assert forall|k: int| 0 <= k < ps.len() implies 0 <= #[trigger] ps[k] < n by {
            if k < ps0.len() {
                assert(ps[k] == ps0[k]);
            }
        }
    }
}

proof fn lemma_selected_names_positions(all: Seq<Seq<char>>, index: Seq<usize>)
    requires
        index.len() >= all.len(),
    ensures
        lists_chosen_positions(
            selected_names(all, index),
            all,
            index,
            chosen_positions(all.len(), index),
        ),
    decreases all.len(),
{
    if all.len() > 0 {
        let n = all.len();
        let prev = all.drop_last();
        lemma_selected_names_positions(prev, index);
        lemma_chosen_positions_below((n - 1) as nat, index);
        let ps0 = chosen_positions((n - 1) as nat, index);
        let ps = chosen_positions(n, index);
        let names = selected_names(all, index);
        assert forall|k: int| 0 <= k < ps0.len() implies prev[ps0[k]] == all[ps0[k]] by {
            assert(0 <= ps0[k] < n - 1);
        }
        assert forall|p: int| 0 <= p < all.len() && index[p] == p implies ps.contains(p) by {
            if p < n - 1 {
                let k = choose|k: int| 0 <= k < ps0.len() && ps0[k] == p;
                assert(ps[k] == p);
            } else {
                assert(ps[ps.len() - 1] == p);
            }
        }
        assert forall|k: int| 0 <= k < ps.len() implies 0 <= #[trigger] ps[k] < all.len()
            && index[ps[k]] == ps[k] && names[k] == all[ps[k]] by {
            if k < ps0.len() {
                assert(ps[k] == ps0[k]);
            }
        }
        assert forall|k: int, l: int| 0 <= k < l < ps.len() implies ps[k] < ps[l] by {
            if l < ps0.len() {
                assert(ps[k] == ps0[k] && ps[l] == ps0[l]);
            } else {
                assert(ps[k] == ps0[k]);
            }
        }
    }
}

/// With a user's index list, the insert statement lists exactly the names at
/// the positions `p` of the primary key followed by the columns for which
/// `index[p] == p`, in order: position 0, the primary key, is treated like
/// every other position, so it is listed exactly when `index[0] == 0`.
pub proof fn law_insert_lists_exactly_the_chosen_positions(
    primary_key: Seq<char>,
    cols: Seq<(String, String)>,
    index: Seq<usize>,
)
    requires
        index.len() > cols.len(),
    ensures
        exists|ps: Seq<int>|
            lists_chosen_positions(
                insert_field_names(primary_key, cols, Some(index)),
                seq![primary_key] + column_names(cols),
                index,
                ps,
            ),
{
    let all = seq![primary_key] + column_names(cols);
    lemma_selected_names_positions(all, index);
    let ps = chosen_positions(all.len(), index);
    assert(lists_chosen_positions(insert_field_names(primary_key, cols, Some(index)), all, index, ps));
}

} // verus!
