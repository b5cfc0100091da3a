//! The processing of a struct's fields for the derive: which fields become
//! columns, which one is the primary key, and the SQL type of each.
use vstd::prelude::*;
use vstd::string::*;
use syn::Generics;
use crate::struct_def::{
    FieldDef, StructDef, DataDef, InputError, clone_generics, has_attr, count_attr,
    fields_of, name_of, scan_def, scan_fields, scan_rest, scan_input, has_field_named,
    first_pk_field, ignore_names, repeat_name, lemma_scan_fields_step, lemma_scan_attrs_step,
    lemma_field_prefix_step, lemma_attr_prefix_step, lemma_repeat_name_push, lemma_marker_names,
    law_accepted_input_has_at_most_one_primary_key, lemma_first_pk_field_none, pk_marked,
};
use crate::text::{str_eq, strings_view, lemma_strings_view_push, spec_to_lowercase, to_lowercase};
use super::database_config::{get_mapper, DEFAULT_PRIMARY_KEY_SQL_STR};
use super::type_mapper::{TypeMapper, sqlite_type_name};

verus! {

/// The field information in a struct
pub struct FieldInfo {
    pub name: String,
    pub ty_name: String,
    pub is_primary_key: bool,
    pub is_ignore: bool,
}

/// The contents of a `FieldInfo`.
pub struct FieldInfoView {
    pub name: Seq<char>,
    pub ty_name: Seq<char>,
    pub is_primary_key: bool,
    pub is_ignore: bool,
}

impl View for FieldInfo {
    type V = FieldInfoView;

    open spec fn view(&self) -> FieldInfoView {
        FieldInfoView {
            name: self.name@,
            ty_name: self.ty_name@,
            is_primary_key: self.is_primary_key,
            is_ignore: self.is_ignore,
        }
    }
}

impl Clone for FieldInfo {
    fn clone(&self) -> (r: Self)
        ensures
            r == *self,
    {
        FieldInfo {
            name: self.name.clone(),
            ty_name: self.ty_name.clone(),
            is_primary_key: self.is_primary_key,
            is_ignore: self.is_ignore,
        }
    }
}

impl FieldInfo {
    // Create a new FieldInfo derectly from Field
    fn new(name: String, ty_name: String, is_primary_key: bool, is_ignore: bool) -> (r: Self)
        ensures
            r.name == name,
            r.ty_name == ty_name,
            r.is_primary_key == is_primary_key,
            r.is_ignore == is_ignore,
    {
        Self { name, ty_name, is_primary_key, is_ignore }
    }
}

/// The contents of a `FieldProcessor`.
pub struct FieldProcessorView {
    pub fields: Seq<FieldInfoView>,
    pub struct_ident: Seq<char>,
    pub primary_key: (Seq<char>, Seq<char>),
    pub ignore_fields_name: Seq<Seq<char>>,
    pub generics: Generics,
}

/// What the processor records of one field.
pub open spec fn info_of(f: FieldDef) -> FieldInfoView {
    FieldInfoView {
        name: name_of(f),
        ty_name: sqlite_type_name(f.ty),
        is_primary_key: has_attr(f.attrs@, "primary_key"@),
        is_ignore: has_attr(f.attrs@, "ignore"@),
    }
}

/// The name of the primary key column: the marked field's, else `id`, or
/// `autoincrement` where a field already takes the name `id`.
pub open spec fn primary_key_name(fields: Seq<FieldDef>) -> Seq<char> {
    match first_pk_field(fields) {
        Some(f) => name_of(f),
        None => if has_field_named(fields, "id"@) {
            "autoincrement"@
        } else {
            "id"@
        },
    }
}

/// Whether a table can be made from the definition: it scans without problem,
/// and where no field is marked `#[primary_key]`, one of the names `id` and
/// `autoincrement` is free for the default primary key.
pub open spec fn derive_input_ok(def: StructDef) -> bool {
    match scan_def(def) {
        Ok(seen) => seen || !(has_field_named(fields_of(def), "id"@) && has_field_named(
            fields_of(def),
            "autoincrement"@,
        )),
        Err(_) => false,
    }
}

/// The first reason why no table can be made from the definition.
pub open spec fn derive_input_problem(def: StructDef) -> Option<InputError> {
    match scan_def(def) {
        Err(e) => Some(e),
        Ok(seen) => if seen || !(has_field_named(fields_of(def), "id"@) && has_field_named(
            fields_of(def),
            "autoincrement"@,
        )) {
            None
        } else {
            Some(InputError::NoDefaultPrimaryKey)
        },
    }
}

/// The processor that `FieldProcessor::new` builds from a definition.
pub open spec fn spec_processor(def: StructDef) -> FieldProcessorView {
    FieldProcessorView {
        fields: fields_of(def).map_values(|f: FieldDef| info_of(f)),
        struct_ident: def.ident@,
        primary_key: (primary_key_name(fields_of(def)), DEFAULT_PRIMARY_KEY_SQL_STR@),
        ignore_fields_name: ignore_names(fields_of(def)),
        generics: def.generics,
    }
}

/// The columns other than the primary key: each field that is neither
/// ignored nor the primary key, with its SQL type, in the order of the fields.
pub open spec fn column_list_of(fields: Seq<FieldInfoView>) -> Seq<(Seq<char>, Seq<char>)>
    decreases fields.len(),
{
    if fields.len() == 0 {
        Seq::empty()
    } else {
        let rest = column_list_of(fields.drop_last());
        let f = fields.last();
        if !f.is_primary_key && !f.is_ignore {
            rest.push((f.name, f.ty_name))
        } else {
            rest
        }
    }
}

/// The contents of a list of (name, type) pairs.
pub open spec fn pairs_view(v: Seq<(String, String)>) -> Seq<(Seq<char>, Seq<char>)> {
    v.map_values(|p: (String, String)| (p.0@, p.1@))
}

/// The names of all columns: the primary key first, then the other columns.
pub open spec fn field_names_of(p: FieldProcessorView) -> Seq<Seq<char>> {
    seq![p.primary_key.0] + column_list_of(p.fields).map_values(
        |c: (Seq<char>, Seq<char>)| c.0,
    )
}

/// Checks a definition before a processor is made from it: `Ok` exactly when
/// a table can be made from it, else the first problem.
pub fn check_derive_input(def: &StructDef) -> (r: Result<(), InputError>)
    ensures
        r is Ok <==> derive_input_ok(*def),
        r matches Err(e) ==> derive_input_problem(*def) == Some(e),
{
    let seen = match scan_input(def) {
        Err(e) => {
            return Err(e);
        },
        Ok(seen) => seen,
    };
    if seen {
        return Ok(());
    }
    match &def.data {
        DataDef::Struct(fs) => {
            let mut have_id = false;
            let mut have_auto = false;
            let mut i: usize = 0;
            while i < fs.len()
                invariant
                    i <= fs@.len(),
                    have_id == has_field_named(fs@.take(i as int), "id"@),
                    have_auto == has_field_named(fs@.take(i as int), "autoincrement"@),
                decreases fs@.len() - i,
            {
                proof {
                    lemma_field_prefix_step(fs@, i as int, "id"@);
                    lemma_field_prefix_step(fs@, i as int, "autoincrement"@);
                    lemma_marker_names();
                }
                match &fs[i].ident {
                    Some(n) => {
                        if str_eq(n.as_str(), "id") {
                            have_id = true;
                        } else if str_eq(n.as_str(), "autoincrement") {
                            have_auto = true;
                        }
                    },
                    None => {},
                }
                i = i + 1;
            }
            assert(fs@.take(i as int) =~= fs@);
            if have_id && have_auto {
                Err(InputError::NoDefaultPrimaryKey)
            } else {
                Ok(())
            }
        },
        _ => Ok(()),
    }
}

/// Field Processor, including the information of the all the fields in a struct
pub struct FieldProcessor {
    //all the fields info in the struct
    fields: Vec<FieldInfo>,
    //the name of the struct
    struct_ident: String,
    //the name of the primary key field, if we have not set it, it will create a primary key.
    primary_key: (String, String),
    //ignore the fields that are not used in the table or sql statement
    ignore_fields_name: Vec<String>,
    //the generics lifetime parameters and closures of the struct
    generics: Generics,
}

impl View for FieldProcessor {
    type V = FieldProcessorView;

    closed spec fn view(&self) -> FieldProcessorView {
        FieldProcessorView {
            fields: self.fields@.map_values(|f: FieldInfo| f@),
            struct_ident: self.struct_ident@,
            primary_key: (self.primary_key.0@, self.primary_key.1@),
            ignore_fields_name: strings_view(self.ignore_fields_name@),
            generics: self.generics,
        }
    }
}

impl Clone for FieldProcessor {
    fn clone(&self) -> (r: Self)
        ensures
            r@ == self@,
    {
        let fields = self.fields.clone();
        let ignore_fields_name = self.ignore_fields_name.clone();
        proof {
            assert(fields@ =~= self.fields@);
            assert(ignore_fields_name@ =~= self.ignore_fields_name@);
        }
        FieldProcessor {
            fields,
            struct_ident: self.struct_ident.clone(),
            primary_key: (self.primary_key.0.clone(), self.primary_key.1.clone()),
            ignore_fields_name,
            generics: clone_generics(&self.generics),
        }
    }
}

impl FieldProcessor {
    /// Create a new FieldProcessor directly from the definition of a struct
    /// # Note: Only struct can be used with this function
    pub fn new(input: &StructDef) -> (r: Self)
        requires
            derive_input_ok(*input),
        ensures
            r@ == spec_processor(*input),
    {
        let struct_ident = input.ident.clone();
        let mut primary_key_opt: Option<String> = None;
        let mut ignore_fields_name: Vec<String> = Vec::new();
        let mut have_field_name_with_id = false;
        let mut have_field_name_with_auto_increment = false;
        let mapper = get_mapper();
        let generics = clone_generics(&input.generics);
        let mut fields: Vec<FieldInfo> = Vec::new();
        let fs = match &input.data {
            DataDef::Struct(fs) => fs,
            _ => {
                return vstd::pervasive::unreached();
            },
        };
        let ghost fsv = fs@;
        assert(fsv.skip(0) =~= fsv);
        let mut i: usize = 0;
        while i < fs.len()
            invariant
                fsv == fs@,
                fsv == fields_of(*input),
                derive_input_ok(*input),
                i <= fsv.len(),
                scan_fields(fsv.skip(i as int), primary_key_opt is Some) == scan_def(*input),
                fields@.map_values(|f: FieldInfo| f@) == fsv.take(i as int).map_values(
                    |f: FieldDef| info_of(f),
                ),
                strings_view(ignore_fields_name@) == ignore_names(fsv.take(i as int)),
                match first_pk_field(fsv.take(i as int)) {
                    Some(g) => primary_key_opt matches Some(n) && n@ == name_of(g),
                    None => primary_key_opt is None,
                },
                have_field_name_with_id == has_field_named(fsv.take(i as int), "id"@),
                have_field_name_with_auto_increment == has_field_named(
                    fsv.take(i as int),
                    "autoincrement"@,
                ),
            decreases fsv.len() - i,
        {
            proof {
                lemma_scan_fields_step(fsv, i as int, primary_key_opt is Some);
                lemma_field_prefix_step(fsv, i as int, "id"@);
                lemma_field_prefix_step(fsv, i as int, "autoincrement"@);
                lemma_marker_names();
            }
            let f = &fs[i];
            let field_name = match &f.ident {
                Some(n) => n.clone(),
                None => {
                    return vstd::pervasive::unreached();
                },
            };
            let field_ty_name = String::from_str(mapper.map_type(&f.ty));
            if str_eq(field_name.as_str(), "id") {
                have_field_name_with_id = true;
            } else if str_eq(field_name.as_str(), "autoincrement") {
                have_field_name_with_auto_increment = true;
            }
            let mut is_ignore = false;
            let mut is_primary_key = false;
            let ghost ignore_before = strings_view(ignore_fields_name@);
            let ghost pk_before = primary_key_opt;
            let mut k: usize = 0;
            assert(f.attrs@.take(0) =~= Seq::<Option<String>>::empty());
            while k < f.attrs.len()
                invariant
                    fsv == fields_of(*input),
                    derive_input_ok(*input),
                    i < fsv.len(),
                    *f == fsv[i as int],
                    field_name@ == name_of(*f),
                    k <= f.attrs@.len(),
                    scan_rest(fsv, i as int, k as int, primary_key_opt is Some) == scan_def(
                        *input,
                    ),
                    is_ignore == has_attr(f.attrs@.take(k as int), "ignore"@),
                    is_primary_key == has_attr(f.attrs@.take(k as int), "primary_key"@),
                    strings_view(ignore_fields_name@) == ignore_before + repeat_name(
                        count_attr(f.attrs@.take(k as int), "ignore"@),
                        name_of(*f),
                    ),
                    pk_before is Some ==> primary_key_opt == pk_before,
                    pk_before is None ==> (if is_primary_key {
                        primary_key_opt matches Some(n) && n@ == name_of(*f)
                    } else {
                        primary_key_opt is None
                    }),
                decreases f.attrs@.len() - k,
            {
                proof {
                    lemma_scan_attrs_step(f.attrs@, k as int, primary_key_opt is Some);
                    lemma_attr_prefix_step(f.attrs@, k as int, "ignore"@);
                    lemma_attr_prefix_step(f.attrs@, k as int, "primary_key"@);
                    lemma_marker_names();
                }
                let attr_ident = match &f.attrs[k] {
                    Some(a) => a,
                    None => {
                        return vstd::pervasive::unreached();
                    },
                };
                if str_eq(attr_ident.as_str(), "ignore") {
                    let ghost old_names = ignore_fields_name@;
                    let n = field_name.clone();
                    proof {
                        lemma_strings_view_push(old_names, n);
                        lemma_repeat_name_push(
                            count_attr(f.attrs@.take(k as int), "ignore"@),
                            name_of(*f),
                        );
                    }
                    ignore_fields_name.push(n);
                    is_ignore = true;
                } else if str_eq(attr_ident.as_str(), "primary_key") {
                    if primary_key_opt.is_none() {
                        primary_key_opt = Some(field_name.clone());
                        is_primary_key = true;
                    } else {
                        return vstd::pervasive::unreached();
                    }
                }
                k = k + 1;
            }
            proof {
                assert(f.attrs@.take(k as int) =~= f.attrs@);
                assert(f.attrs@.skip(k as int) =~= Seq::<Option<String>>::empty());
            }
            let info = FieldInfo::new(field_name, field_ty_name, is_primary_key, is_ignore);
            proof {
                assert(fields@.push(info).map_values(|f: FieldInfo| f@) =~= fields@.map_values(
                    |f: FieldInfo| f@,
                ).push(info@));
                assert(fsv.take(i + 1).map_values(|f: FieldDef| info_of(f)) =~= fsv.take(
                    i as int,
                ).map_values(|f: FieldDef| info_of(f)).push(info_of(fsv[i as int])));
            }
            fields.push(info);
            i = i + 1;
        }
        proof {
            assert(fsv.take(i as int) =~= fsv);
            assert(fsv.skip(i as int) =~= Seq::<FieldDef>::empty());
        }
        let pk_name = match primary_key_opt {
            Some(n) => n,
            None => {
                if have_field_name_with_id {
                    String::from_str("autoincrement")
                } else {
                    String::from_str("id")
                }
            },
        };
        let primary_key = (pk_name, String::from_str(DEFAULT_PRIMARY_KEY_SQL_STR));
        let r = Self { fields, struct_ident, primary_key, ignore_fields_name, generics };
        assert(r@.fields =~= spec_processor(*input).fields);
        r
    }

    //get all feilds info in the struct
    pub fn get_fields(&self) -> (r: &Vec<FieldInfo>)
        ensures
            r@.map_values(|f: FieldInfo| f@) == self@.fields,
    {
        &self.fields
    }

    ///get the name of the struct, we will convert it into all lower case
    /// # Note:
    ///  It will return the name of the struct in lower case, it  is a string, not a
    /// ident type of token stream. It is the table name.
    pub fn get_table_name(&self) -> (r: String)
        ensures
            r@ == spec_to_lowercase(self@.struct_ident),
    {
        to_lowercase(self.struct_ident.as_str())
    }

    //get the name of the primary key field
    pub fn get_primary_key(&self) -> (r: (String, String))
        ensures
            (r.0@, r.1@) == self@.primary_key,
    {
        (self.primary_key.0.clone(), self.primary_key.1.clone())
    }

    pub fn get_ignore_fields_name(&self) -> (r: &Vec<String>)
        ensures
            strings_view(r@) == self@.ignore_fields_name,
    {
        &self.ignore_fields_name
    }

    /// This function get the list of the column names of the table, attached with its
    /// type name in SQL.
    ///
    /// # Note:
    /// It will filter out the fields that are marked as ignore or primary key.
    /// So the primary key will NOT be included in the column list.
    pub fn get_column_list(&self) -> (r: Vec<(String, String)>)
        ensures
            pairs_view(r@) == column_list_of(self@.fields),
    {
        let mut r: Vec<(String, String)> = Vec::new();
        let mut i: usize = 0;
        while i < self.fields.len()
            invariant
                i <= self.fields@.len(),
                pairs_view(r@) == column_list_of(
                    self.fields@.map_values(|f: FieldInfo| f@).take(i as int),
                ),
            decreases self.fields@.len() - i,
        {
            let f = &self.fields[i];
            proof {
                let s = self.fields@.map_values(|f: FieldInfo| f@);
                assert(s.take(i + 1).drop_last() =~= s.take(i as int));
                assert(s.take(i + 1).last() == f@);
            }
            if !f.is_primary_key && !f.is_ignore {
                let p = (f.name.clone(), f.ty_name.clone());
                proof {
                    assert(pairs_view(r@.push(p)) =~= pairs_view(r@).push((p.0@, p.1@)));
                }
                r.push(p);
            }
            i = i + 1;
        }
        proof {
            assert(self.fields@.map_values(|f: FieldInfo| f@).take(i as int) =~= self@.fields);
        }
        r
    }

    /// get generics of the struct
    pub fn get_generics(&self) -> (r: &Generics)
        ensures
            *r == self@.generics,
    {
        &self.generics
    }

    /// get the name list of the fields.
    /// we can use this list to prevent the sql injection attack.
    pub fn get_field_names(&self) -> (r: Vec<String>)
        ensures
            strings_view(r@) == field_names_of(self@),
    {
        let mut list: Vec<String> = Vec::new();
        let primary_field_name = self.get_primary_key().0;
        list.push(primary_field_name);
        let columns = self.get_column_list();
        let mut i: usize = 0;
        while i < columns.len()
            invariant
                i <= columns@.len(),
                pairs_view(columns@) == column_list_of(self@.fields),
                strings_view(list@) == seq![self@.primary_key.0] + pairs_view(columns@).take(
                    i as int,
                ).map_values(|c: (Seq<char>, Seq<char>)| c.0),
            decreases columns@.len() - i,
        {
            let n = columns[i].0.clone();
            proof {
                lemma_strings_view_push(list@, n);
                assert(pairs_view(columns@).take(i + 1).map_values(
                    |c: (Seq<char>, Seq<char>)| c.0,
                ) =~= pairs_view(columns@).take(i as int).map_values(
                    |c: (Seq<char>, Seq<char>)| c.0,
                ).push(n@));
            }
            list.push(n);
            i = i + 1;
        }
        proof {
            assert(pairs_view(columns@).take(i as int) =~= pairs_view(columns@));
        }
        list
    }
}


/// The column list holds exactly the fields that are neither ignored nor the
/// primary key, each with its SQL type, in the order of the fields.
pub proof fn law_column_list_is_kept_fields(fields: Seq<FieldInfoView>)
    ensures
        column_list_of(fields) == fields.filter(
            |f: FieldInfoView| !f.is_primary_key && !f.is_ignore,
        ).map_values(|f: FieldInfoView| (f.name, f.ty_name)),
    decreases fields.len(),
{
    let keep = |f: FieldInfoView| !f.is_primary_key && !f.is_ignore;
    let pair = |f: FieldInfoView| (f.name, f.ty_name);
    if fields.len() > 0 {
        law_column_list_is_kept_fields(fields.drop_last());
        fields.drop_last().lemma_filter_push(fields.last(), keep);
        assert(fields.drop_last().push(fields.last()) =~= fields);
        let sub = fields.drop_last().filter(keep);
        assert(sub.push(fields.last()).map_values(pair) =~= sub.map_values(pair).push(
            pair(fields.last()),
        ));
    } else {
        reveal(Seq::filter);
        assert(fields.filter(keep).map_values(pair) =~= Seq::<(Seq<char>, Seq<char>)>::empty());
    }
}

/// The list of field names starts with the primary key, followed by the
/// names of the column list in order.
pub proof fn law_primary_key_first(p: FieldProcessorView)
    ensures
        field_names_of(p).len() == column_list_of(p.fields).len() + 1,
        field_names_of(p)[0] == p.primary_key.0,
        forall|k: int|
            0 <= k < column_list_of(p.fields).len() ==> field_names_of(p)[k + 1]
                == #[trigger] column_list_of(p.fields)[k].0,
{
}

/// Where no field is marked `#[primary_key]`, the default primary key takes a
/// name that no field of an accepted definition has.
pub proof fn law_default_primary_key_is_free(def: StructDef)
    requires
        derive_input_ok(def),
        first_pk_field(fields_of(def)) is None,
    ensures
        !has_field_named(fields_of(def), primary_key_name(fields_of(def))),
{
    lemma_first_pk_field_none(fields_of(def));
    law_accepted_input_has_at_most_one_primary_key(def);
}


/// The names of the fields of a definition, in order.
pub open spec fn field_names_in(fields: Seq<FieldDef>) -> Seq<Seq<char>> {
    fields.map_values(|f: FieldDef| name_of(f))
}

/// Each entry of the column list is a field that is neither ignored nor the
/// primary key, and with distinct field names the column names are distinct.
pub proof fn lemma_column_list_from_fields(fields: Seq<FieldInfoView>)
    ensures
        forall|k: int|
            #![trigger column_list_of(fields)[k]]
            0 <= k < column_list_of(fields).len() ==> exists|i: int|
                0 <= i < fields.len() && #[trigger] fields[i].name == column_list_of(fields)[k].0
                    && !fields[i].is_primary_key && !fields[i].is_ignore,
        fields.map_values(|f: FieldInfoView| f.name).no_duplicates() ==> column_list_of(
            fields,
        ).map_values(|c: (Seq<char>, Seq<char>)| c.0).no_duplicates(),
    decreases fields.len(),
{
    if fields.len() > 0 {
        let init = fields.drop_last();
        let last = fields.last();
        lemma_column_list_from_fields(init);
        let cols = column_list_of(fields);
        let rest = column_list_of(init);
        assert forall|i: int| 0 <= i < init.len() implies init[i] == fields[i] by {}
        assert forall|k: int| #![trigger cols[k]] 0 <= k < cols.len() implies exists|i: int|
            0 <= i < fields.len() && #[trigger] fields[i].name == cols[k].0
                && !fields[i].is_primary_key && !fields[i].is_ignore by {
            if k < rest.len() {
                assert(cols[k] == rest[k]);
                let i = choose|i: int|
                    0 <= i < init.len() && #[trigger] init[i].name == rest[k].0
                        && !init[i].is_primary_key && !init[i].is_ignore;
                assert(fields[i] == init[i]);
            } else {
                assert(fields[fields.len() - 1].name == cols[k].0);
            }
        }
        if fields.map_values(|f: FieldInfoView| f.name).no_duplicates() {
            let fnames = fields.map_values(|f: FieldInfoView| f.name);
            let inames = init.map_values(|f: FieldInfoView| f.name);
            assert(inames.no_duplicates()) by {
                assert forall|a: int, b: int|
                    0 <= a < inames.len() && 0 <= b < inames.len() && a != b implies inames[a]
                    != inames[b] by {
                    assert(fnames[a] == init[a].name);
                    assert(fnames[b] == init[b].name);
                }
            }
            assert(inames == init.map_values(|f: FieldInfoView| f.name));
            let cnames = cols.map_values(|c: (Seq<char>, Seq<char>)| c.0);
            let rnames = rest.map_values(|c: (Seq<char>, Seq<char>)| c.0);
            assert forall|a: int, b: int|
                0 <= a < cnames.len() && 0 <= b < cnames.len() && a != b implies cnames[a]
                != cnames[b] by {
                if a < rest.len() && b < rest.len() {
                    assert(cnames[a] == rnames[a]);
                    assert(cnames[b] == rnames[b]);
                } else {
                    // one of the two is the last field's name, the other comes from an earlier field
                    let k = if a < rest.len() { a } else { b };
                    assert(k < rest.len());
                    assert(cnames[k] == rest[k].0);
                    let i = choose|i: int|
                        0 <= i < init.len() && #[trigger] init[i].name == rest[k].0
                            && !init[i].is_primary_key && !init[i].is_ignore;
                    assert(fnames[i] == init[i].name);
                    assert(fnames[fields.len() - 1] == last.name);
                }
            }
        }
    }
}

/// For an accepted definition whose fields have distinct names (as Rust
/// requires), the list of field names has no name twice: the primary key's
/// name, default or marked, is none of the other columns' names.
pub proof fn law_field_names_are_distinct(def: StructDef)
    requires
        derive_input_ok(def),
        field_names_in(fields_of(def)).no_duplicates(),
    ensures
        field_names_of(spec_processor(def)).no_duplicates(),
{
    let fs = fields_of(def);
    let p = spec_processor(def);
    let infos = p.fields;
    let cols = column_list_of(infos);
    let cnames = cols.map_values(|c: (Seq<char>, Seq<char>)| c.0);
    let names = field_names_of(p);
    assert(infos.map_values(|f: FieldInfoView| f.name) =~= field_names_in(fs));
    lemma_column_list_from_fields(infos);
    lemma_first_pk_field_none(fs);
    if first_pk_field(fs) is None {
        law_default_primary_key_is_free(def);
    }
    assert forall|a: int, b: int|
        0 <= a < names.len() && 0 <= b < names.len() && a != b implies names[a] != names[b] by {
        if a > 0 && b > 0 {
            assert(names[a] == cnames[a - 1]);
            assert(names[b] == cnames[b - 1]);
        } else {
            let k = if a == 0 { b - 1 } else { a - 1 };
            assert(names[0] == p.primary_key.0);
            assert(names[k + 1] == cols[k].0);
            let i = choose|i: int|
                0 <= i < infos.len() && #[trigger] infos[i].name == cols[k].0
                    && !infos[i].is_primary_key && !infos[i].is_ignore;
            assert(infos[i] == info_of(fs[i]));
            assert(field_names_in(fs)[i] == name_of(fs[i]));
            match first_pk_field(fs) {
                Some(f) => {
                    let j = choose|j: int| 0 <= j < fs.len() && #[trigger] fs[j] == f;
                    assert(field_names_in(fs)[j] == name_of(fs[j]));
                    assert(infos[j] == info_of(fs[j]));
                },
                None => {
                    assert(name_of(fs[i]) == infos[i].name);
                    assert(!has_field_named(fs, primary_key_name(fs)));
                    if name_of(fs[i]) == primary_key_name(fs) {
                        assert(has_field_named(fs, primary_key_name(fs)));
                    }
                },
            }
        }
    }
}


/// Where scanning succeeds, the definition is refused for want of a default
/// primary key only when no field is marked `#[primary_key]` and fields take
/// both names `id` and `autoincrement`; in particular a definition with a field
/// `id` and none named `autoincrement` is accepted (its key is `autoincrement`).
pub proof fn law_refused_only_when_both_default_names_taken(def: StructDef)
    requires
        scan_def(def) is Ok,
    ensures
        derive_input_ok(def) <==> ((exists|i: int|
            0 <= i < fields_of(def).len() && pk_marked(#[trigger] fields_of(def)[i]))
            || !has_field_named(fields_of(def), "id"@) || !has_field_named(
            fields_of(def),
            "autoincrement"@,
        )),
        has_field_named(fields_of(def), "id"@) && !has_field_named(
            fields_of(def),
            "autoincrement"@,
        ) ==> derive_input_ok(def) && (first_pk_field(fields_of(def)) is None ==> primary_key_name(
            fields_of(def),
        ) == "autoincrement"@),
        !derive_input_ok(def) ==> derive_input_problem(def) == Some(InputError::NoDefaultPrimaryKey),
{
    law_accepted_input_has_at_most_one_primary_key(def);
}

/// A kept field (neither ignored nor the primary key) is in the column list
/// with its name and SQL type.
pub proof fn lemma_kept_field_in_column_list(fields: Seq<FieldInfoView>, i: int)
    requires
        0 <= i < fields.len(),
        !fields[i].is_primary_key,
        !fields[i].is_ignore,
    ensures
        column_list_of(fields).contains((fields[i].name, fields[i].ty_name)),
    decreases fields.len(),
{
    let init = fields.drop_last();
    if i < fields.len() - 1 {
        assert(init[i] == fields[i]);
        lemma_kept_field_in_column_list(init, i);
        let c = column_list_of(init);
        let k = choose|k: int| 0 <= k < c.len() && c[k] == (fields[i].name, fields[i].ty_name);
        assert(column_list_of(fields)[k] == c[k]);
    } else {
        let c = column_list_of(fields);
        assert(c[c.len() - 1] == (fields[i].name, fields[i].ty_name));
    }
}

/// A field is recorded as ignored exactly when one of its attributes is
/// `#[ignore]`; other attributes (`doc`, `serde`, `allow`, ...) leave it a
/// column, and a field that is neither ignored nor marked as the primary key
/// is among the field names.
pub proof fn law_only_marked_fields_are_ignored(def: StructDef)
    ensures
        forall|i: int|
            0 <= i < fields_of(def).len() ==> (#[trigger] spec_processor(def).fields[i]).is_ignore
                == exists|j: int|
                0 <= j < fields_of(def)[i].attrs@.len() && (#[trigger] fields_of(
                    def,
                )[i].attrs@[j] matches Some(a) && a@ == "ignore"@),
        forall|i: int|
            0 <= i < fields_of(def).len() && !has_attr(fields_of(def)[i].attrs@, "ignore"@)
                && !has_attr(fields_of(def)[i].attrs@, "primary_key"@) ==> field_names_of(
                spec_processor(def),
            ).contains(name_of(#[trigger] fields_of(def)[i])),
{
    let fs = fields_of(def);
    let p = spec_processor(def);
    assert forall|i: int|
        0 <= i < fs.len() && !has_attr(fs[i].attrs@, "ignore"@) && !has_attr(
            fs[i].attrs@,
            "primary_key"@,
        ) implies field_names_of(p).contains(name_of(#[trigger] fs[i])) by {
        assert(p.fields[i] == info_of(fs[i]));
        lemma_kept_field_in_column_list(p.fields, i);
        let c = column_list_of(p.fields);
        let k = choose|k: int| 0 <= k < c.len() && c[k] == (p.fields[i].name, p.fields[i].ty_name);
        assert(field_names_of(p)[k + 1] == name_of(fs[i]));
    }
}

} // verus!
