//! The processing of a struct's fields that the table statement is made from:
//! each field's name and type, the primary key, and the ignored fields.
use vstd::prelude::*;
use vstd::string::*;
use crate::struct_def::{
    FieldDef, FieldType, StructDef, DataDef, has_attr, count_attr, fields_of, name_of, scan_def,
    scan_fields, scan_rest, first_pk_field, ignore_names, repeat_name, lemma_scan_fields_step,
    lemma_scan_attrs_step, lemma_field_prefix_step, lemma_attr_prefix_step,
    lemma_repeat_name_push, lemma_marker_names,
};
use crate::text::{str_eq, strings_view, lemma_strings_view_push, spec_to_lowercase, to_lowercase};
use crate::gen_sql_statement_derive::database_config::get_mapper;
use crate::gen_sql_statement_derive::type_mapper::{TypeMapper, sqlite_type_name};

verus! {

///The field information in a struct
pub struct FieldInfo {
    pub name: String,
    pub ty: FieldType,
    pub is_primary_key: bool,
    pub is_ignore: bool,
}

/// The contents of a `FieldInfo`.
pub struct FieldInfoView {
    pub name: Seq<char>,
    pub ty: FieldType,
    pub is_primary_key: bool,
    pub is_ignore: bool,
}

impl View for FieldInfo {
    type V = FieldInfoView;

    open spec fn view(&self) -> FieldInfoView {
        FieldInfoView {
            name: self.name@,
            ty: self.ty,
            is_primary_key: self.is_primary_key,
            is_ignore: self.is_ignore,
        }
    }
}

impl Clone for FieldInfo {
    fn clone(&self) -> (r: Self)
        ensures
            r == *self,
    {
        FieldInfo {
            name: self.name.clone(),
            ty: self.ty.clone(),
            is_primary_key: self.is_primary_key,
            is_ignore: self.is_ignore,
        }
    }
}

impl FieldInfo {
    // Create a new FieldInfo derectly from Field
    fn new(name: String, ty: FieldType, is_primary_key: bool, is_ignore: bool) -> (r: Self)
        ensures
            r.name == name,
            r.ty == ty,
            r.is_primary_key == is_primary_key,
            r.is_ignore == is_ignore,
    {
        Self { name, ty, is_primary_key, is_ignore }
    }
}

/// The contents of a `FieldProcessor`.
pub struct FieldProcessorView {
    pub fields: Seq<FieldInfoView>,
    pub struct_ident: Seq<char>,
    pub primary_key: Option<(Seq<char>, FieldType)>,
    pub ignore_fields_name: Seq<Seq<char>>,
}

/// What the processor records of one field.
pub open spec fn info_of(f: FieldDef) -> FieldInfoView {
    FieldInfoView {
        name: name_of(f),
        ty: f.ty,
        is_primary_key: has_attr(f.attrs@, "primary_key"@),
        is_ignore: has_attr(f.attrs@, "ignore"@),
    }
}

/// The field marked `#[primary_key]`, by name and type.
pub open spec fn primary_key_of(fields: Seq<FieldDef>) -> Option<(Seq<char>, FieldType)> {
    match first_pk_field(fields) {
        Some(f) => Some((name_of(f), f.ty)),
        None => None,
    }
}

/// The processor that `FieldProcessor::new` builds from a definition.
pub open spec fn spec_processor(def: StructDef) -> FieldProcessorView {
    FieldProcessorView {
        fields: fields_of(def).map_values(|f: FieldDef| info_of(f)),
        struct_ident: def.ident@,
        primary_key: primary_key_of(fields_of(def)),
        ignore_fields_name: ignore_names(fields_of(def)),
    }
}

/// A field that becomes a column: not ignored, and, unless `with_primary_key`,
/// not the primary key.
pub open spec fn is_column(f: FieldInfoView, with_primary_key: bool) -> bool {
    !f.is_ignore && (with_primary_key || !f.is_primary_key)
}

/// The names of the columns, in the order of the fields.
pub open spec fn column_names_of(fields: Seq<FieldInfoView>, with_primary_key: bool) -> Seq<
    Seq<char>,
>
    decreases fields.len(),
{
    if fields.len() == 0 {
        Seq::empty()
    } else {
        let rest = column_names_of(fields.drop_last(), with_primary_key);
        if is_column(fields.last(), with_primary_key) {
            rest.push(fields.last().name)
        } else {
            rest
        }
    }
}

/// The SQLite types of the columns, in the order of the fields.
pub open spec fn sql_types_of(fields: Seq<FieldInfoView>, with_primary_key: bool) -> Seq<
    Seq<char>,
>
    decreases fields.len(),
{
    if fields.len() == 0 {
        Seq::empty()
    } else {
        let rest = sql_types_of(fields.drop_last(), with_primary_key);
        if is_column(fields.last(), with_primary_key) {
            rest.push(sqlite_type_name(fields.last().ty))
        } else {
            rest
        }
    }
}

/// Field Processor, including the information of the all the fields in a struct
pub struct FieldProcessor {
    //all the fields info in the struct
    fields: Vec<FieldInfo>,
    //the name of the struct
    struct_ident: String,
    //the name of the primary key field, if we have not set it, it will create a primary key.
    primary_key: Option<(String, FieldType)>,
    //ignore the fields that are not used in the table or sql statement
    ignore_fields_name: Vec<String>,
}

impl View for FieldProcessor {
    type V = FieldProcessorView;

    closed spec fn view(&self) -> FieldProcessorView {
        FieldProcessorView {
            fields: self.fields@.map_values(|f: FieldInfo| f@),
            struct_ident: self.struct_ident@,
            primary_key: match self.primary_key {
                Some(p) => Some((p.0@, p.1)),
                None => None,
            },
            ignore_fields_name: strings_view(self.ignore_fields_name@),
        }
    }
}

/// The names (or, with `types`, the SQLite types) of the columns among `fields`.
fn select_columns(fields: &Vec<FieldInfo>, with_primary_key: bool, types: bool) -> (r: Vec<
    String,
>)
    ensures
        strings_view(r@) == if types {
            sql_types_of(fields@.map_values(|f: FieldInfo| f@), with_primary_key)
        } else {
            column_names_of(fields@.map_values(|f: FieldInfo| f@), with_primary_key)
        },
{
    let ghost fv = fields@.map_values(|f: FieldInfo| f@);
    let mapper = get_mapper();
    let mut r: Vec<String> = Vec::new();
    let mut i: usize = 0;
    while i < fields.len()
        invariant
            fv == fields@.map_values(|f: FieldInfo| f@),
            i <= fields@.len(),
            strings_view(r@) == if types {
                sql_types_of(fv.take(i as int), with_primary_key)
            } else {
                column_names_of(fv.take(i as int), with_primary_key)
            },
        decreases fields@.len() - i,
    {
        let f = &fields[i];
        proof {
            assert(fv.take(i + 1).drop_last() =~= fv.take(i as int));
            assert(fv.take(i + 1).last() == f@);
        }
        if !f.is_ignore && (with_primary_key || !f.is_primary_key) {
            let s = if types {
                String::from_str(mapper.map_type(&f.ty))
            } else {
                f.name.clone()
            };
            proof {
                lemma_strings_view_push(r@, s);
            }
            r.push(s);
        }
        i = i + 1;
    }
    proof {
        assert(fv.take(i as int) =~= fv);
    }
    r
}

impl Clone for FieldProcessor {
    fn clone(&self) -> (r: Self)
        ensures
            r@ == self@,
    {
        let fields = self.fields.clone();
        let ignore_fields_name = self.ignore_fields_name.clone();
        proof {
            assert(fields@ =~= self.fields@);
            assert(ignore_fields_name@ =~= self.ignore_fields_name@);
        }
        let primary_key = match &self.primary_key {
            Some(p) => Some((p.0.clone(), p.1.clone())),
            None => None,
        };
        FieldProcessor { fields, struct_ident: self.struct_ident.clone(), primary_key, ignore_fields_name }
    }
}

impl FieldProcessor {
    /// Create a new FieldProcessor directly from the definition of a struct
    /// # Note: Only struct can be used with this function
    pub fn new(input: &StructDef) -> (r: Self)
        requires
            scan_def(*input) is Ok,
        ensures
            r@ == spec_processor(*input),
    {
        let struct_ident = input.ident.clone();
        let mut primary_key: Option<(String, FieldType)> = None;
        let mut ignore_fields_name: Vec<String> = Vec::new();
        let mut fields: Vec<FieldInfo> = Vec::new();
        let fs = match &input.data {
            DataDef::Struct(fs) => fs,
            _ => {
                return vstd::pervasive::unreached();
            },
        };
        let ghost fsv = fs@;
        assert(fsv.skip(0) =~= fsv);
        let mut i: usize = 0;
        while i < fs.len()
            invariant
                fsv == fs@,
                fsv == fields_of(*input),
                scan_def(*input) is Ok,
                i <= fsv.len(),
                scan_fields(fsv.skip(i as int), primary_key is Some) == scan_def(*input),
                fields@.map_values(|f: FieldInfo| f@) == fsv.take(i as int).map_values(
                    |f: FieldDef| info_of(f),
                ),
                strings_view(ignore_fields_name@) == ignore_names(fsv.take(i as int)),
                match first_pk_field(fsv.take(i as int)) {
                    Some(g) => primary_key matches Some(p) && p.0@ == name_of(g) && p.1 == g.ty,
                    None => primary_key is None,
                },
            decreases fsv.len() - i,
        {
            proof {
                lemma_scan_fields_step(fsv, i as int, primary_key is Some);
                lemma_field_prefix_step(fsv, i as int, "id"@);
                lemma_marker_names();
            }
            let f = &fs[i];
            let field_name = match &f.ident {
                Some(n) => n.clone(),
                None => {
                    return vstd::pervasive::unreached();
                },
            };
            let field_ty = f.ty.clone();
            let mut is_ignore = false;
            let mut is_primary_key = false;
            let ghost ignore_before = strings_view(ignore_fields_name@);
            let ghost pk_before = primary_key;
            let mut k: usize = 0;
            assert(f.attrs@.take(0) =~= Seq::<Option<String>>::empty());
            while k < f.attrs.len()
                invariant
                    fsv == fields_of(*input),
                    scan_def(*input) is Ok,
                    i < fsv.len(),
                    *f == fsv[i as int],
                    field_name@ == name_of(*f),
                    field_ty == f.ty,
                    k <= f.attrs@.len(),
                    scan_rest(fsv, i as int, k as int, primary_key is Some) == scan_def(*input),
                    is_ignore == has_attr(f.attrs@.take(k as int), "ignore"@),
                    is_primary_key == has_attr(f.attrs@.take(k as int), "primary_key"@),
                    strings_view(ignore_fields_name@) == ignore_before + repeat_name(
                        count_attr(f.attrs@.take(k as int), "ignore"@),
                        name_of(*f),
                    ),
                    pk_before is Some ==> primary_key == pk_before,
                    pk_before is None ==> (if is_primary_key {
                        primary_key matches Some(p) && p.0@ == name_of(*f) && p.1 == f.ty
                    } else {
                        primary_key is None
                    }),
                decreases f.attrs@.len() - k,
            {
                proof {
                    lemma_scan_attrs_step(f.attrs@, k as int, primary_key is Some);
                    lemma_attr_prefix_step(f.attrs@, k as int, "ignore"@);
                    lemma_attr_prefix_step(f.attrs@, k as int, "primary_key"@);
                    lemma_marker_names();
                }
                let attr_ident = match &f.attrs[k] {
                    Some(a) => a,
                    None => {
                        return vstd::pervasive::unreached();
                    },
                };
                if str_eq(attr_ident.as_str(), "ignore") {
                    let ghost old_names = ignore_fields_name@;
                    let n = field_name.clone();
                    proof {
                        lemma_strings_view_push(old_names, n);
                        lemma_repeat_name_push(
                            count_attr(f.attrs@.take(k as int), "ignore"@),
                            name_of(*f),
                        );
                    }
                    ignore_fields_name.push(n);
                    is_ignore = true;
                } else if str_eq(attr_ident.as_str(), "primary_key") {
                    if primary_key.is_none() {
                        primary_key = Some((field_name.clone(), field_ty.clone()));
                        is_primary_key = true;
                    } else {
                        return vstd::pervasive::unreached();
                    }
                }
                k = k + 1;
            }
            proof {
                assert(f.attrs@.take(k as int) =~= f.attrs@);
                assert(f.attrs@.skip(k as int) =~= Seq::<Option<String>>::empty());
            }
            let info = FieldInfo::new(field_name, field_ty, is_primary_key, is_ignore);
            proof {
                assert(fields@.push(info).map_values(|f: FieldInfo| f@) =~= fields@.map_values(
                    |f: FieldInfo| f@,
                ).push(info@));
                assert(fsv.take(i + 1).map_values(|f: FieldDef| info_of(f)) =~= fsv.take(
                    i as int,
                ).map_values(|f: FieldDef| info_of(f)).push(info_of(fsv[i as int])));
            }
            fields.push(info);
            i = i + 1;
        }
        proof {
            assert(fsv.take(i as int) =~= fsv);
        }
        let r = Self { fields, struct_ident, primary_key, ignore_fields_name };
        assert(r@.fields =~= spec_processor(*input).fields);
        r
    }

    //get all feilds info in the struct
    pub fn get_fields(&self) -> (r: &Vec<FieldInfo>)
        ensures
            r@.map_values(|f: FieldInfo| f@) == self@.fields,
    {
        &self.fields
    }

    //get the name of the struct, we will convert it into all lower case
    pub fn get_struct_ident(&self) -> (r: String)
        ensures
            r@ == spec_to_lowercase(self@.struct_ident),
    {
        to_lowercase(self.struct_ident.as_str())
    }

    //get the name of the primary key field
    pub fn get_primary_key(&self) -> (r: Option<(String, FieldType)>)
        ensures
            match r {
                Some(p) => self@.primary_key == Some((p.0@, p.1)),
                None => self@.primary_key is None,
            },
    {
        match &self.primary_key {
            Some(p) => Some((p.0.clone(), p.1.clone())),
            None => None,
        }
    }

    pub fn get_ignore_fields_name(&self) -> (r: &Vec<String>)
        ensures
            strings_view(r@) == self@.ignore_fields_name,
    {
        &self.ignore_fields_name
    }

    ///This function will return a string of the column list of the table.
    /// # Note:
    /// It will filter out the fields that are marked as ignore or primary key,
    /// BOTH.
    pub fn get_column_list_without_primary_key(&self) -> (r: Vec<String>)
        ensures
            strings_view(r@) == column_names_of(self@.fields, false),
    {
        select_columns(&self.fields, false, false)
    }

    ///This function will return a string of the column list of the table.
    /// # Note:
    /// It will filter out the fields that are marked as ignore.
    /// The primary key field will be remained in this vector.
    pub fn get_column_list(&self) -> (r: Vec<String>)
        ensures
            strings_view(r@) == column_names_of(self@.fields, true),
    {
        select_columns(&self.fields, true, false)
    }

    ///mapper all the rust type into sql type String, such as  rust type i32 will be mapped
    /// to string "INTEGER".
    /// # Note:
    /// It will filter out the fields that are marked as ignore.
    /// The primary key field will be REMAINED in this vector.
    pub fn get_sql_type_list(&self) -> (r: Vec<String>)
        ensures
            strings_view(r@) == sql_types_of(self@.fields, true),
    {
        select_columns(&self.fields, true, true)
    }

    ///mapper all the rust type into sql type String, such as  rust type i32 will be mapped
    /// to string "INTEGER".
    /// # Note:
    /// It will filter out the fields that are marked as ignore.
    /// The primary key field will be FILTERED out in this vector.
    pub fn get_sql_type_list_without_primary_key(&self) -> (r: Vec<String>)
        ensures
            strings_view(r@) == sql_types_of(self@.fields, false),
    {
        select_columns(&self.fields, false, true)
    }
}


/// The column list and the SQL type list hold the same fields: those that are
/// not ignored (and, unless `with_primary_key`, not the primary key), in the
/// order of the fields; the k-th type is the type of the k-th column.
pub proof fn law_columns_and_types_pair(fields: Seq<FieldInfoView>, with_primary_key: bool)
    ensures
        column_names_of(fields, with_primary_key) == fields.filter(
            |f: FieldInfoView| is_column(f, with_primary_key),
        ).map_values(|f: FieldInfoView| f.name),
        sql_types_of(fields, with_primary_key) == fields.filter(
            |f: FieldInfoView| is_column(f, with_primary_key),
        ).map_values(|f: FieldInfoView| sqlite_type_name(f.ty)),
    decreases fields.len(),
{
    let keep = |f: FieldInfoView| is_column(f, with_primary_key);
    let name = |f: FieldInfoView| f.name;
    let ty = |f: FieldInfoView| sqlite_type_name(f.ty);
    if fields.len() > 0 {
        law_columns_and_types_pair(fields.drop_last(), with_primary_key);
        fields.drop_last().lemma_filter_push(fields.last(), keep);
        assert(fields.drop_last().push(fields.last()) =~= fields);
        let sub = fields.drop_last().filter(keep);
        assert(sub.push(fields.last()).map_values(name) =~= sub.map_values(name).push(
            name(fields.last()),
        ));
        assert(sub.push(fields.last()).map_values(ty) =~= sub.map_values(ty).push(
            ty(fields.last()),
        ));
    } else {
        reveal(Seq::filter);
        assert(fields.filter(keep).map_values(name) =~= Seq::<Seq<char>>::empty());
        assert(fields.filter(keep).map_values(ty) =~= Seq::<Seq<char>>::empty());
    }
}


/// A column field is in the column list, at a position where the type list
/// holds its SQLite type.
pub proof fn lemma_column_field_listed(fields: Seq<FieldInfoView>, with_primary_key: bool, i: int)
    requires
        0 <= i < fields.len(),
        is_column(fields[i], with_primary_key),
    ensures
        exists|k: int|
            0 <= k < column_names_of(fields, with_primary_key).len() && k < sql_types_of(
                fields,
                with_primary_key,
            ).len() && #[trigger] column_names_of(fields, with_primary_key)[k] == fields[i].name
                && sql_types_of(fields, with_primary_key)[k] == sqlite_type_name(fields[i].ty),
    decreases fields.len(),
{
    law_columns_and_types_pair(fields, with_primary_key);
    let init = fields.drop_last();
    law_columns_and_types_pair(init, with_primary_key);
    assert(column_names_of(init, with_primary_key).len() == sql_types_of(init, with_primary_key).len());
    if i < fields.len() - 1 {
        assert(init[i] == fields[i]);
        lemma_column_field_listed(init, with_primary_key, i);
        let k = choose|k: int|
            0 <= k < column_names_of(init, with_primary_key).len() && k < sql_types_of(
                init,
                with_primary_key,
            ).len() && #[trigger] column_names_of(init, with_primary_key)[k] == init[i].name
                && sql_types_of(init, with_primary_key)[k] == sqlite_type_name(init[i].ty);
        assert(column_names_of(fields, with_primary_key)[k] == column_names_of(
            init,
            with_primary_key,
        )[k]);
        assert(sql_types_of(fields, with_primary_key)[k] == sql_types_of(init, with_primary_key)[k]);
    } else {
        let k = column_names_of(init, with_primary_key).len() as int;
        assert(column_names_of(fields, with_primary_key)[k] == fields[i].name);
        assert(sql_types_of(fields, with_primary_key)[k] == sqlite_type_name(fields[i].ty));
    }
}

/// A field is recorded as ignored exactly when one of its attributes is
/// `#[ignore]`; a field without it, whatever other attributes it carries,
/// appears in the column list (with the primary key kept) at a position where
/// the SQL type list holds its type.
pub proof fn law_only_marked_fields_are_ignored(def: StructDef)
    ensures
        forall|i: int|
            0 <= i < fields_of(def).len() ==> (#[trigger] spec_processor(def).fields[i]).is_ignore
                == exists|j: int|
                0 <= j < fields_of(def)[i].attrs@.len() && (#[trigger] fields_of(
                    def,
                )[i].attrs@[j] matches Some(a) && a@ == "ignore"@),
        forall|i: int|
            0 <= i < fields_of(def).len() && !has_attr(fields_of(def)[i].attrs@, "ignore"@)
                ==> exists|k: int|
                0 <= k < column_names_of(spec_processor(def).fields, true).len() && k
                    < sql_types_of(spec_processor(def).fields, true).len()
                    && column_names_of(spec_processor(def).fields, true)[k] == name_of(
                    #[trigger] fields_of(def)[i],
                ) && sql_types_of(spec_processor(def).fields, true)[k] == sqlite_type_name(
                    fields_of(def)[i].ty,
                ),
{
    let fs = fields_of(def);
    let p = spec_processor(def);
    assert forall|i: int| 0 <= i < fs.len() && !has_attr(fs[i].attrs@, "ignore"@) implies exists|k: int|
        0 <= k < column_names_of(p.fields, true).len() && k < sql_types_of(p.fields, true).len()
            && column_names_of(p.fields, true)[k] == name_of(#[trigger] fs[i]) && sql_types_of(
            p.fields,
            true,
        )[k] == sqlite_type_name(fs[i].ty) by {
        assert(p.fields[i] == info_of(fs[i]));
        lemma_column_field_listed(p.fields, true, i);
    }
}

} // verus!
