//! The statement trait with its checking of a user's field list.
use vstd::prelude::*;
use vstd::string::*;
use crate::sql_statement_trait::error::Error;
use crate::text::{str_eq, strs_view, spec_debug_str_list, debug_str_list, lemma_strs_view_push};

verus! {

/// The position of the first occurrence of `name` in `names`, or -1.
pub open spec fn first_index(names: Seq<Seq<char>>, name: Seq<char>) -> int
    decreases names.len(),
{
    if names.len() == 0 {
        -1
    } else {
        let r = first_index(names.drop_last(), name);
        if r >= 0 {
            r
        } else if names.last() == name {
            names.len() - 1
        } else {
            -1
        }
    }
}

/// The names of `user_list` that are not field names, in order.
pub open spec fn unknown_names(names: Seq<Seq<char>>, user_list: Seq<Seq<char>>) -> Seq<
    Seq<char>,
>
    decreases user_list.len(),
{
    if user_list.len() == 0 {
        Seq::empty()
    } else {
        let r = unknown_names(names, user_list.drop_last());
        if names.contains(user_list.last()) {
            r
        } else {
            r.push(user_list.last())
        }
    }
}

/// The outcome of checking a user's field list against the field names: the
/// position in `names` of each listed field, or, where some are not field
/// names, an `InvalidFieldName` error that lists those.
pub open spec fn positions_outcome(
    names: Seq<Seq<char>>,
    user_list: Seq<Seq<char>>,
    r: Result<Vec<usize>, Error>,
) -> bool {
    match r {
        Ok(v) => unknown_names(names, user_list).len() == 0 && v@.len() == user_list.len() && (
        forall|k: int| 0 <= k < user_list.len() ==> v@[k] == first_index(names, #[trigger] user_list[k])),
        Err(e) => unknown_names(names, user_list).len() > 0 && (e matches Error::InvalidFieldName(m)
            && m@ == "Invalid field name: "@ + spec_debug_str_list(unknown_names(names, user_list))),
    }
}

/// The position of a name found by `first_index` holds that name, and no
/// earlier position does.
pub proof fn lemma_first_index(names: Seq<Seq<char>>, name: Seq<char>)
    ensures
        -1 <= first_index(names, name) < names.len(),
        first_index(names, name) >= 0 <==> names.contains(name),
        first_index(names, name) >= 0 ==> names[first_index(names, name)] == name,
        forall|j: int| 0 <= j < first_index(names, name) ==> names[j] != name,
    decreases names.len(),
{
    if names.len() > 0 {
        let init = names.drop_last();
        lemma_first_index(init, name);
        if init.contains(name) {
            let j = choose|j: int| 0 <= j < init.len() && init[j] == name;
            assert(names[j] == name);
        }
        if names.contains(name) && !init.contains(name) {
            let j = choose|j: int| 0 <= j < names.len() && names[j] == name;
            if j < init.len() {
                assert(init[j] == name);
            }
            assert(names.last() == name);
        }
        if names.last() == name {
            assert(names[names.len() - 1] == name);
        }
        assert forall|j: int| 0 <= j < first_index(names, name) implies names[j] != name by {
            assert(names[j] == init[j]);
            if !init.contains(name) {
                assert(init[j] != name);
            }
        }
    }
}

/// Checks a user's field list against the field names: every listed name
/// must be a field name; the result is the position of each in `field_names`.
pub fn field_positions(field_names: &Vec<&str>, user_list: &Vec<&str>) -> (r: Result<
    Vec<usize>,
    Error,
>)
    ensures
        positions_outcome(strs_view(field_names@), strs_view(user_list@), r),
{
    let ghost names = strs_view(field_names@);
    let ghost users = strs_view(user_list@);
    let mut invalid_field_name: Vec<&str> = Vec::new();
    let mut vec_field_positions: Vec<usize> = Vec::new();
    let mut i: usize = 0;
    while i < user_list.len()
        invariant
            names == strs_view(field_names@),
            users == strs_view(user_list@),
            i <= user_list@.len(),
            strs_view(invalid_field_name@) == unknown_names(names, users.take(i as int)),
            vec_field_positions@.len() <= i,
            unknown_names(names, users.take(i as int)).len() == 0 ==> (vec_field_positions@.len()
                == i && forall|k: int|
                0 <= k < i ==> vec_field_positions@[k] == first_index(
                    names,
                    #[trigger] users[k],
                )),
        decreases user_list@.len() - i,
    {
        let field = user_list[i];
        proof {
            assert(users.take(i + 1).drop_last() =~= users.take(i as int));
            assert(users.take(i + 1).last() == field@);
            lemma_first_index(names, field@);
        }
        // the position of the first field name equal to the user's name
        let mut j: usize = 0;
        let mut found = false;
        while j < field_names.len()
            invariant_except_break
                !found,
            invariant
                names == strs_view(field_names@),
                j <= field_names@.len(),
                forall|m: int| 0 <= m < j ==> names[m] != field@,
            ensures
                found ==> j < names.len() && names[j as int] == field@ && forall|m: int|
                    0 <= m < j ==> names[m] != field@,
                !found ==> !names.contains(field@),
            decreases field_names@.len() - j,
        {
            if str_eq(field_names[j], field) {
                found = true;
                break;
            }
            j = j + 1;
        }
        proof {
            lemma_first_index(names, field@);
            if found {
                assert(names.contains(field@));
                if first_index(names, field@) < j {
                    assert(names[first_index(names, field@)] == field@);
                }
                if first_index(names, field@) > j {
                    assert(names[j as int] == field@);
                }
            }
        }
        if found {
            vec_field_positions.push(j);
        } else {
            proof {
                lemma_strs_view_push(invalid_field_name@, field);
            }
            invalid_field_name.push(field);
        }
        i = i + 1;
    }
    proof {
        assert(users.take(i as int) =~= users);
    }
    if invalid_field_name.len() == 0 {
        Ok(vec_field_positions)
    } else {
        let mut msg = String::from_str("Invalid field name: ");
        msg.append(debug_str_list(&invalid_field_name).as_str());
        Err(Error::InvalidFieldName(msg))
    }
}

/// The contents of a list of field names.
pub type FieldNames = Seq<Seq<char>>;

pub trait SqlStatement {
    /// Return the sql string of the create table statement for the given structure.
    fn create_table_sql(&self) -> &'static str;

    /// The field names of the structure, as `get_field_names` returns them.
    spec fn spec_field_names(&self) -> FieldNames;

    /// Return the field names of the structure, the primary key field always at the first position.
    fn get_field_names(&self) -> (r: &Vec<&'static str>)
        ensures
            strs_view(r@) == self.spec_field_names(),
    ;

    /// Return the insert statement sql string.
    fn insert_sql_statement(&self, user_list: Vec<&'static str>) -> Result<&'static str, Error>;

    /// Return a delete statement sql string.
    fn delete_sql_statement(&self, where_clause: &'static str) -> Result<String, Error>;

    /// Return the select statement sql string.
    /// # Args
    /// * 'select_columns' - The columns to be selected. If it's None, all columns will be selected.
    /// * 'where_clause' - The where clause. It's a string that contains the condition of the select
    /// statement. It should be in the format of "field_name = ?".
    fn select_sql_statement(
        &self,
        select_columns: Option<Vec<&'static str>>,
        where_clause: &'static str,
    ) -> Result<&'static str, Error>;

    /// Checking user's field list, return the relative position of the field_names list.
    ///
    /// # Args
    /// * 'user_list' - The user's field list. It's a list of field names. Only the names of the
    /// structure's fields without marked '#[ignore]' are valid. Otherwise, This function
    /// will return a InvalidFieldName error.
    ///
    /// # Returns
    /// * 'Vec<usize>' - The relative position of the field_names list. Every field's name have a fixed
    /// position in the field_names list. This position is the same as the column index in the insert
    /// statement.
    ///  * The primary key field always at the first position.
    ///  * The other fields are sorted by the order of appearance in the structure.
    ///  * The fields marked '#[ignore]' are ignored.
    fn get_field_positions(&self, user_list: Vec<&'static str>) -> (r: Result<Vec<usize>, Error>)
        ensures
            positions_outcome(self.spec_field_names(), strs_view(user_list@), r),
    {
        let field_names = self.get_field_names();
        field_positions(field_names, &user_list)
    }
}


/// No listed name is unknown exactly when every listed name is a field name.
pub proof fn lemma_unknown_names_empty(names: Seq<Seq<char>>, user_list: Seq<Seq<char>>)
    ensures
        unknown_names(names, user_list).len() == 0 <==> forall|k: int|
            0 <= k < user_list.len() ==> names.contains(#[trigger] user_list[k]),
    decreases user_list.len(),
{
    if user_list.len() > 0 {
        let init = user_list.drop_last();
        lemma_unknown_names_empty(names, init);
        assert forall|k: int| 0 <= k < init.len() implies init[k] == user_list[k] by {}
        if unknown_names(names, user_list).len() == 0 {
            assert forall|k: int| 0 <= k < user_list.len() implies names.contains(
                #[trigger] user_list[k],
            ) by {
                if k < init.len() {
                    assert(init[k] == user_list[k]);
                }
            }
        }
        if forall|k: int| 0 <= k < user_list.len() ==> names.contains(#[trigger] user_list[k]) {
            assert forall|k: int| 0 <= k < init.len() implies names.contains(
                #[trigger] init[k],
            ) by {
                assert(init[k] == user_list[k]);
            }
            assert(names.contains(user_list[user_list.len() - 1]));
        }
    }
}

/// Each position holds the name listed at the same place.
pub open spec fn positions_hold_names(
    names: Seq<Seq<char>>,
    user_list: Seq<Seq<char>>,
    positions: Seq<usize>,
) -> bool {
    positions.len() == user_list.len() && forall|k: int|
        0 <= k < user_list.len() ==> #[trigger] positions[k] < names.len() && names[positions[k] as int]
            == user_list[k]
}

/// Checking a user's field list succeeds exactly when every listed name is a
/// field name, and then each returned position holds the listed name.
pub proof fn law_positions_point_at_listed_fields(
    names: Seq<Seq<char>>,
    user_list: Seq<Seq<char>>,
    r: Result<Vec<usize>, Error>,
)
    requires
        positions_outcome(names, user_list, r),
    ensures
        r is Ok <==> forall|k: int| 0 <= k < user_list.len() ==> names.contains(
            #[trigger] user_list[k],
        ),
        r matches Ok(v) ==> positions_hold_names(names, user_list, v@),
{
    lemma_unknown_names_empty(names, user_list);
    if let Ok(v) = r {
        assert forall|k: int| 0 <= k < user_list.len() implies #[trigger] v@[k] < names.len() && names[v@[k] as int]
            == user_list[k] by {
            lemma_first_index(names, user_list[k]);
            assert(names.contains(user_list[k]));
        }
    }
}

} // verus!
