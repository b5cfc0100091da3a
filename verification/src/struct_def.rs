//! The description of a struct definition that the SQL generators read: the
//! struct's name, its generics (carried, never inspected), and for each field
//! its name, the name of its type and the names of its attributes.
//!
//! The scan of a definition decides whether a table can be made from it: the
//! definition must be a struct with named fields, every attribute must be a
//! single identifier, and at most one `#[primary_key]` may appear.
use vstd::prelude::*;
use syn::Generics;

verus! {

/// Declares `syn::Generics` to Verus; its values are carried, never inspected.
#[verifier::external_type_specification]
#[verifier::external_body]
pub struct ExGenerics(Generics);

/// Calls `<syn::Generics as Clone>::clone`, which clones each field of the
/// generics; the copy is taken to be the same value as the source.
#[verifier::external_body]
pub fn clone_generics(g: &Generics) -> (r: Generics)
    ensures
        r == *g,
{
    g.clone()
}

/// The type of a field, as far as the SQL type mapping reads it.
pub enum FieldType {
    /// A path type (`u32`, `String`, `chrono::NaiveDate`, ...): the identifier
    /// of its last segment.
    Path(String),
    /// Any other type (references, tuples, arrays, ...).
    Other,
}

impl Clone for FieldType {
    fn clone(&self) -> (r: Self)
        ensures
            r == *self,
    {
        match self {
            FieldType::Path(s) => FieldType::Path(s.clone()),
            FieldType::Other => FieldType::Other,
        }
    }
}

/// One field of a struct definition.
pub struct FieldDef {
    /// The field's name; `None` for a field of a tuple struct.
    pub ident: Option<String>,
    /// The field's type.
    pub ty: FieldType,
    /// The field's attributes in order of appearance: the attribute path's
    /// identifier, or `None` where the path is not a single identifier.
    pub attrs: Vec<Option<String>>,
}

/// The body of a definition.
pub enum DataDef {
    Struct(Vec<FieldDef>),
    Enum,
    Union,
}

/// A type definition handed to the generators.
pub struct StructDef {
    pub ident: String,
    pub generics: Generics,
    pub data: DataDef,
}

/// Why no table can be made from a definition.
#[derive(PartialEq, Eq, Structural, Debug, Clone, Copy)]
pub enum InputError {
    /// The definition is an enum or a union.
    NotAStruct,
    /// A field has no name.
    UnnamedField,
    /// An attribute's path is not a single identifier.
    AttributeWithoutIdent,
    /// A second `#[primary_key]` was found.
    MultiplePrimaryKeys,
    /// No `#[primary_key]`, and both `id` and `autoincrement` are taken by
    /// fields, so no default primary key can be named.
    NoDefaultPrimaryKey,
}

/// `a` is an attribute whose identifier is `name`.
pub open spec fn attr_is(a: Option<String>, name: Seq<char>) -> bool {
    a matches Some(s) && s@ == name
}

/// Some attribute in `attrs` has the identifier `name`.
pub open spec fn has_attr(attrs: Seq<Option<String>>, name: Seq<char>) -> bool {
    exists|j: int| 0 <= j < attrs.len() && attr_is(#[trigger] attrs[j], name)
}

/// How many attributes in `attrs` have the identifier `name`.
pub open spec fn count_attr(attrs: Seq<Option<String>>, name: Seq<char>) -> nat
    decreases attrs.len(),
{
    if attrs.len() == 0 {
        0
    } else {
        count_attr(attrs.drop_last(), name) + if attr_is(attrs.last(), name) {
            1nat
        } else {
            0nat
        }
    }
}

/// The fields of a definition (empty for enums and unions).
pub open spec fn fields_of(def: StructDef) -> Seq<FieldDef> {
    match def.data {
        DataDef::Struct(fs) => fs@,
        _ => Seq::empty(),
    }
}

/// The name of a field (meaningful for named fields).
pub open spec fn name_of(f: FieldDef) -> Seq<char> {
    match f.ident {
        Some(s) => s@,
        None => Seq::empty(),
    }
}

/// Scanning the attributes of one field in order, with `seen` telling whether
/// a primary key was marked before: the new value of `seen`, or the first
/// problem met.
pub open spec fn scan_attrs(attrs: Seq<Option<String>>, seen: bool) -> Result<bool, InputError>
    decreases attrs.len(),
{
    if attrs.len() == 0 {
        Ok(seen)
    } else {
        match attrs[0] {
            None => Err(InputError::AttributeWithoutIdent),
            Some(a) => if a@ == "primary_key"@ {
                if seen {
                    Err(InputError::MultiplePrimaryKeys)
                } else {
                    scan_attrs(attrs.drop_first(), true)
                }
            } else {
                scan_attrs(attrs.drop_first(), seen)
            },
        }
    }
}

/// Scanning the fields in order: whether a primary key was marked, or the
/// first problem met.
pub open spec fn scan_fields(fields: Seq<FieldDef>, seen: bool) -> Result<bool, InputError>
    decreases fields.len(),
{
    if fields.len() == 0 {
        Ok(seen)
    } else if fields[0].ident is None {
        Err(InputError::UnnamedField)
    } else {
        match scan_attrs(fields[0].attrs@, seen) {
            Err(e) => Err(e),
            Ok(s) => scan_fields(fields.drop_first(), s),
        }
    }
}

/// Scanning a whole definition: whether a primary key was marked, or the
/// first problem met.
pub open spec fn scan_def(def: StructDef) -> Result<bool, InputError> {
    match def.data {
        DataDef::Struct(fs) => scan_fields(fs@, false),
        _ => Err(InputError::NotAStruct),
    }
}

/// The scan of the rest of the fields after `k` attributes of field `i` were
/// read with the state `seen`.
pub open spec fn scan_rest(fields: Seq<FieldDef>, i: int, k: int, seen: bool) -> Result<
    bool,
    InputError,
> {
    match scan_attrs(fields[i].attrs@.skip(k), seen) {
        Err(e) => Err(e),
        Ok(s) => scan_fields(fields.skip(i + 1), s),
    }
}

/// The field names that are taken and could otherwise name a default primary key.
pub open spec fn has_field_named(fields: Seq<FieldDef>, name: Seq<char>) -> bool {
    exists|i: int| 0 <= i < fields.len() && name_of(#[trigger] fields[i]) == name
}

/// One step of the scan of a field's attributes.
pub proof fn lemma_scan_attrs_step(attrs: Seq<Option<String>>, k: int, seen: bool)
    requires
        0 <= k < attrs.len(),
    ensures
        attrs.skip(k).drop_first() == attrs.skip(k + 1),
        scan_attrs(attrs.skip(k), seen) == match attrs[k] {
            None => Err(InputError::AttributeWithoutIdent),
            Some(a) => if a@ == "primary_key"@ {
                if seen {
                    Err(InputError::MultiplePrimaryKeys)
                } else {
                    scan_attrs(attrs.skip(k + 1), true)
                }
            } else {
                scan_attrs(attrs.skip(k + 1), seen)
            },
        },
{
    assert(attrs.skip(k).drop_first() =~= attrs.skip(k + 1));
    assert(attrs.skip(k)[0] == attrs[k]);
}

/// One step of the scan over the fields.
pub proof fn lemma_scan_fields_step(fields: Seq<FieldDef>, i: int, seen: bool)
    requires
        0 <= i < fields.len(),
    ensures
        fields.skip(i).drop_first() == fields.skip(i + 1),
        scan_fields(fields.skip(i), seen) == if fields[i].ident is None {
            Err(InputError::UnnamedField)
        } else {
            scan_rest(fields, i, 0, seen)
        },
{
    assert(fields.skip(i).drop_first() =~= fields.skip(i + 1));
    assert(fields.skip(i)[0] == fields[i]);
    assert(fields[i].attrs@.skip(0) =~= fields[i].attrs@);
}

/// Scans the definition as the generators do before making a table from it:
/// returns whether a field is marked `#[primary_key]`, or the first problem met
/// in the order of the fields and of their attributes.
pub fn scan_input(def: &StructDef) -> (r: Result<bool, InputError>)
    ensures
        r == scan_def(*def),
{
    match &def.data {
        DataDef::Struct(fs) => {
            let mut seen = false;
            let mut i: usize = 0;
            assert(fs@.skip(0) =~= fs@);
            while i < fs.len()
                invariant
                    i <= fs@.len(),
                    scan_def(*def) == scan_fields(fs@, false),
                    scan_fields(fs@.skip(i as int), seen) == scan_fields(fs@, false),
                decreases fs@.len() - i,
            {
                proof {
                    lemma_scan_fields_step(fs@, i as int, seen);
                }
                let f = &fs[i];
                if f.ident.is_none() {
                    return Err(InputError::UnnamedField);
                }
                let mut k: usize = 0;
                while k < f.attrs.len()
                    invariant
                        i < fs@.len(),
                        scan_def(*def) == scan_fields(fs@, false),
                        *f == fs@[i as int],
                        k <= f.attrs@.len(),
                        scan_rest(fs@, i as int, k as int, seen) == scan_fields(fs@, false),
                    decreases f.attrs@.len() - k,
                {
                    proof {
                        lemma_scan_attrs_step(f.attrs@, k as int, seen);
                    }
                    match &f.attrs[k] {
                        None => {
                            return Err(InputError::AttributeWithoutIdent);
                        },
                        Some(a) => {
                            if crate::text::str_eq(a.as_str(), "primary_key") {
                                if seen {
                                    return Err(InputError::MultiplePrimaryKeys);
                                }
                                seen = true;
                            }
                        },
                    }
                    k = k + 1;
                }
                proof {
                    assert(f.attrs@.skip(k as int) =~= Seq::<Option<String>>::empty());
                }
                i = i + 1;
            }
            proof {
                assert(fs@.skip(i as int) =~= Seq::<FieldDef>::empty());
            }
            Ok(seen)
        },
        _ => Err(InputError::NotAStruct),
    }
}


/// The first field, in order, that is marked `#[primary_key]`.
pub open spec fn first_pk_field(fields: Seq<FieldDef>) -> Option<FieldDef>
    decreases fields.len(),
{
    if fields.len() == 0 {
        None
    } else {
        match first_pk_field(fields.drop_last()) {
            Some(f) => Some(f),
            None => if has_attr(fields.last().attrs@, "primary_key"@) {
                Some(fields.last())
            } else {
                None
            },
        }
    }
}

/// `n` copies of a name.
pub open spec fn repeat_name(n: nat, name: Seq<char>) -> Seq<Seq<char>> {
    Seq::new(n, |_j: int| name)
}

/// The names recorded as ignored: a field's name once for each `#[ignore]`
/// attribute it carries, in the order of the fields.
pub open spec fn ignore_names(fields: Seq<FieldDef>) -> Seq<Seq<char>>
    decreases fields.len(),
{
    if fields.len() == 0 {
        Seq::empty()
    } else {
        ignore_names(fields.drop_last()) + repeat_name(
            count_attr(fields.last().attrs@, "ignore"@),
            name_of(fields.last()),
        )
    }
}

/// Reading one more attribute of a field.
pub proof fn lemma_attr_prefix_step(attrs: Seq<Option<String>>, k: int, name: Seq<char>)
    requires
        0 <= k < attrs.len(),
    ensures
        has_attr(attrs.take(k + 1), name) == (has_attr(attrs.take(k), name) || attr_is(
            attrs[k],
            name,
        )),
        count_attr(attrs.take(k + 1), name) == count_attr(attrs.take(k), name) + if attr_is(
            attrs[k],
            name,
        ) {
            1nat
        } else {
            0nat
        },
{
    assert(attrs.take(k + 1).drop_last() =~= attrs.take(k));
    assert(attrs.take(k + 1).last() == attrs[k]);
    if has_attr(attrs.take(k + 1), name) {
        let j = choose|j: int| 0 <= j < k + 1 && attr_is(#[trigger] attrs.take(k + 1)[j], name);
        if j < k {
            assert(attr_is(attrs.take(k)[j], name));
        }
    }
    if has_attr(attrs.take(k), name) {
        let j = choose|j: int| 0 <= j < k && attr_is(#[trigger] attrs.take(k)[j], name);
        assert(attr_is(attrs.take(k + 1)[j], name));
    }
    if attr_is(attrs[k], name) {
        assert(attr_is(attrs.take(k + 1)[k], name));
    }
}

/// Reading one more field.
pub proof fn lemma_field_prefix_step(fields: Seq<FieldDef>, i: int, name: Seq<char>)
    requires
        0 <= i < fields.len(),
    ensures
        fields.take(i + 1).drop_last() == fields.take(i),
        fields.take(i + 1).last() == fields[i],
        has_field_named(fields.take(i + 1), name) == (has_field_named(fields.take(i), name)
            || name_of(fields[i]) == name),
        first_pk_field(fields.take(i + 1)) == match first_pk_field(fields.take(i)) {
            Some(f) => Some(f),
            None => if has_attr(fields[i].attrs@, "primary_key"@) {
                Some(fields[i])
            } else {
                None
            },
        },
        ignore_names(fields.take(i + 1)) == ignore_names(fields.take(i)) + repeat_name(
            count_attr(fields[i].attrs@, "ignore"@),
            name_of(fields[i]),
        ),
{
    assert(fields.take(i + 1).drop_last() =~= fields.take(i));
    assert(fields.take(i + 1).last() == fields[i]);
    if has_field_named(fields.take(i + 1), name) {
        let j = choose|j: int| 0 <= j < i + 1 && name_of(#[trigger] fields.take(i + 1)[j]) == name;
        if j < i {
            assert(name_of(fields.take(i)[j]) == name);
        }
    }
    if has_field_named(fields.take(i), name) {
        let j = choose|j: int| 0 <= j < i && name_of(#[trigger] fields.take(i)[j]) == name;
        assert(name_of(fields.take(i + 1)[j]) == name);
    }
    if name_of(fields[i]) == name {
        assert(name_of(fields.take(i + 1)[i]) == name);
    }
}

/// `n + 1` copies of a name are `n` copies and one more.
pub proof fn lemma_repeat_name_push(n: nat, name: Seq<char>)
    ensures
        repeat_name(n + 1, name) == repeat_name(n, name).push(name),
{
    assert(repeat_name(n + 1, name) =~= repeat_name(n, name).push(name));
}


/// The attribute and field names that the generators look for are pairwise
/// different and not empty.
pub proof fn lemma_marker_names()
    ensures
        "id"@.len() == 2,
        "autoincrement"@.len() == 13,
        "ignore"@.len() == 6,
        "primary_key"@.len() == 11,
        "id"@ != "autoincrement"@,
        "ignore"@ != "primary_key"@,
{
    reveal_strlit("id");
    reveal_strlit("autoincrement");
    reveal_strlit("ignore");
    reveal_strlit("primary_key");
}


/// A field is marked `#[primary_key]`.
pub open spec fn pk_marked(f: FieldDef) -> bool {
    has_attr(f.attrs@, "primary_key"@)
}

/// No two attributes of `attrs` are `#[primary_key]`.
pub open spec fn single_pk_attr(attrs: Seq<Option<String>>) -> bool {
    forall|j1: int, j2: int|
        0 <= j1 < attrs.len() && 0 <= j2 < attrs.len() && j1 != j2 && attr_is(
            #[trigger] attrs[j1],
            "primary_key"@,
        ) ==> !attr_is(#[trigger] attrs[j2], "primary_key"@)
}

proof fn lemma_scan_attrs_marks(attrs: Seq<Option<String>>, seen: bool)
    ensures
        scan_attrs(attrs, seen) matches Ok(s) ==> {
            &&& s == (seen || has_attr(attrs, "primary_key"@))
            &&& seen ==> !has_attr(attrs, "primary_key"@)
            &&& single_pk_attr(attrs)
        },
    decreases attrs.len(),
{
    if attrs.len() > 0 {
        let rest = attrs.drop_first();
        let next = match attrs[0] {
            Some(a) => a@ == "primary_key"@ || seen,
            None => seen,
        };
        lemma_scan_attrs_marks(rest, next);
        if scan_attrs(attrs, seen) is Ok {
            assert(scan_attrs(attrs, seen) == scan_attrs(rest, next));
            assert forall|j: int| 0 <= j < rest.len() implies rest[j] == attrs[j + 1] by {}
            if has_attr(rest, "primary_key"@) {
                let j = choose|j: int| 0 <= j < rest.len() && attr_is(#[trigger] rest[j], "primary_key"@);
                assert(attr_is(attrs[j + 1], "primary_key"@));
            }
            if has_attr(attrs, "primary_key"@) && !attr_is(attrs[0], "primary_key"@) {
                let j = choose|j: int| 0 <= j < attrs.len() && attr_is(#[trigger] attrs[j], "primary_key"@);
                assert(attr_is(rest[j - 1], "primary_key"@));
            }
            if attr_is(attrs[0], "primary_key"@) {
                assert(has_attr(attrs, "primary_key"@));
            }
            assert forall|j1: int, j2: int|
                0 <= j1 < attrs.len() && 0 <= j2 < attrs.len() && j1 != j2 && attr_is(
                    #[trigger] attrs[j1],
                    "primary_key"@,
                ) implies !attr_is(#[trigger] attrs[j2], "primary_key"@) by {
                if j1 > 0 && j2 > 0 {
                    assert(rest[j1 - 1] == attrs[j1]);
                    assert(rest[j2 - 1] == attrs[j2]);
                } else if j1 == 0 {
                    assert(rest[j2 - 1] == attrs[j2]);
                    assert(next);
                    if attr_is(attrs[j2], "primary_key"@) {
                        assert(attr_is(rest[j2 - 1], "primary_key"@));
                        assert(has_attr(rest, "primary_key"@));
                    }
                } else {
                    assert(rest[j1 - 1] == attrs[j1]);
                    assert(attr_is(rest[j1 - 1], "primary_key"@));
                    assert(has_attr(rest, "primary_key"@));
                    if attr_is(attrs[0], "primary_key"@) {
                        assert(next);
                    }
                }
            }
        }
    }
}

proof fn lemma_scan_fields_marks(fields: Seq<FieldDef>, seen: bool)
    ensures
        scan_fields(fields, seen) matches Ok(s) ==> {
            &&& s == (seen || exists|i: int| 0 <= i < fields.len() && pk_marked(#[trigger] fields[i]))
            &&& seen ==> forall|i: int| 0 <= i < fields.len() ==> !pk_marked(#[trigger] fields[i])
            &&& forall|i1: int, i2: int|
                0 <= i1 < fields.len() && 0 <= i2 < fields.len() && i1 != i2 && pk_marked(
                    #[trigger] fields[i1],
                ) ==> !pk_marked(#[trigger] fields[i2])
            &&& forall|i: int| 0 <= i < fields.len() ==> single_pk_attr(#[trigger] fields[i].attrs@)
        },
    decreases fields.len(),
{
    if fields.len() > 0 && fields[0].ident is Some {
        let f0 = fields[0];
        let rest = fields.drop_first();
        lemma_scan_attrs_marks(f0.attrs@, seen);
        if let Ok(s1) = scan_attrs(f0.attrs@, seen) {
            lemma_scan_fields_marks(rest, s1);
            if scan_fields(fields, seen) is Ok {
                assert(scan_fields(fields, seen) == scan_fields(rest, s1));
                assert forall|i: int| 0 <= i < rest.len() implies rest[i] == fields[i + 1] by {}
                if exists|i: int| 0 <= i < rest.len() && pk_marked(#[trigger] rest[i]) {
                    let i = choose|i: int| 0 <= i < rest.len() && pk_marked(#[trigger] rest[i]);
                    assert(pk_marked(fields[i + 1]));
                }
                if exists|i: int| 0 <= i < fields.len() && pk_marked(#[trigger] fields[i]) {
                    let i = choose|i: int| 0 <= i < fields.len() && pk_marked(#[trigger] fields[i]);
                    if i > 0 {
                        assert(pk_marked(rest[i - 1]));
                    }
                }
                assert forall|i: int| 0 <= i < fields.len() implies single_pk_attr(
                    #[trigger] fields[i].attrs@,
                ) by {
                    if i > 0 {
                        assert(rest[i - 1] == fields[i]);
                    }
                }
                if seen {
                    assert forall|i: int| 0 <= i < fields.len() implies !pk_marked(
                        #[trigger] fields[i],
                    ) by {
                        if i > 0 {
                            assert(rest[i - 1] == fields[i]);
                        }
                    }
                }
                assert forall|i1: int, i2: int|
                    0 <= i1 < fields.len() && 0 <= i2 < fields.len() && i1 != i2 && pk_marked(
                        #[trigger] fields[i1],
                    ) implies !pk_marked(#[trigger] fields[i2]) by {
                    if i1 > 0 && i2 > 0 {
                        assert(rest[i1 - 1] == fields[i1]);
                        assert(rest[i2 - 1] == fields[i2]);
                    } else if i1 == 0 {
                        assert(rest[i2 - 1] == fields[i2]);
                    } else {
                        assert(rest[i1 - 1] == fields[i1]);
                    }
                }
            }
        }
    }
}

/// A definition that scans without problem marks at most one field as the
/// primary key, that field with one `#[primary_key]` attribute only, and the
/// scan reports whether one was marked.
pub proof fn law_accepted_input_has_at_most_one_primary_key(def: StructDef)
    requires
        scan_def(def) is Ok,
    ensures
        scan_def(def) == Ok::<bool, InputError>(
            exists|i: int| 0 <= i < fields_of(def).len() && pk_marked(#[trigger] fields_of(def)[i]),
        ),
        forall|i1: int, i2: int|
            0 <= i1 < fields_of(def).len() && 0 <= i2 < fields_of(def).len() && i1 != i2
                && pk_marked(#[trigger] fields_of(def)[i1]) ==> !pk_marked(
                #[trigger] fields_of(def)[i2],
            ),
        forall|i: int|
            0 <= i < fields_of(def).len() ==> single_pk_attr(#[trigger] fields_of(def)[i].attrs@),
{
    lemma_scan_fields_marks(fields_of(def), false);
}


/// No field is found as the primary key exactly when none is marked.
pub proof fn lemma_first_pk_field_none(fields: Seq<FieldDef>)
    ensures
        first_pk_field(fields) is None <==> forall|i: int|
            0 <= i < fields.len() ==> !pk_marked(#[trigger] fields[i]),
        first_pk_field(fields) matches Some(f) ==> pk_marked(f),
        first_pk_field(fields) matches Some(f) ==> exists|j: int|
            0 <= j < fields.len() && #[trigger] fields[j] == f,
    decreases fields.len(),
{
    if fields.len() > 0 {
        let init = fields.drop_last();
        lemma_first_pk_field_none(init);
        assert forall|i: int| 0 <= i < init.len() implies init[i] == fields[i] by {}
        if first_pk_field(fields) is None {
            assert forall|i: int| 0 <= i < fields.len() implies !pk_marked(#[trigger] fields[i]) by {
                if i < init.len() {
                    assert(init[i] == fields[i]);
                }
            }
        } else if first_pk_field(init) is Some {
            let i = choose|i: int| 0 <= i < init.len() && pk_marked(#[trigger] init[i]);
            assert(pk_marked(fields[i]));
            let j = choose|j: int| 0 <= j < init.len() && #[trigger] init[j] == first_pk_field(init)->0;
            assert(fields[j] == init[j]);
        } else {
            assert(pk_marked(fields[fields.len() - 1]));
            assert(fields[fields.len() - 1] == first_pk_field(fields)->0);
        }
    }
}

} // verus!
