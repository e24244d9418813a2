//! From the definition of a record to everything its validator is made of:
//! one check per annotated field, in declaration order, and the patterns to
//! register.

use vstd::prelude::*;
use vstd::string::*;
use crate::predicate::{
    predicate_of_group, registrations_of_group, Predicate, PredicateView, RegexRegistration,
    RegistrationView, DECIMAL_TYPE,
};
use crate::schema::{FieldDef, GenericArg, PathArgs, RecordData, RecordDef, TypeDesc};
use crate::text::{text_eq, views};
use crate::validate::{group_of_attr, CompileError, GroupView, ValidateMeta};

verus! {

/// The name of the wrapper type of an optional field.
pub const OPTION_TYPE: &'static str = "Option";

/// Why the definition of a record yields no validator.
#[derive(Clone, Copy, Debug, PartialEq, Eq, Structural)]
pub enum SchemaError {
    /// The record is no struct with named fields.
    NotAStruct,
    /// An annotation does not compile: the position of the field among the
    /// fields, that of the annotation among the field's annotations, and why.
    Annotation { field: usize, attr: usize, kind: CompileError },
}

/// The type that an optional type wraps: for a path whose last segment is
/// `Option` with angle brackets, the first argument, if that is a type.
pub open spec fn optional_inner(ty: TypeDesc) -> Option<TypeDesc> {
    match ty {
        TypeDesc::Path(segments) => {
            if segments@.len() > 0 && segments@.last().ident@ == OPTION_TYPE@ {
                match segments@.last().args {
                    PathArgs::AngleBracketed(args) => {
                        if args@.len() > 0 {
                            match args@[0] {
                                GenericArg::Type(inner) => Some(inner),
                                GenericArg::Other => None,
                            }
                        } else {
                            None
                        }
                    },
                    _ => None,
                }
            } else {
                None
            }
        },
        TypeDesc::Other => None,
    }
}

/// The terminal name of a type: the name of the last segment of a path, and
/// the empty name for any other type.
pub open spec fn terminal_name(ty: TypeDesc) -> Seq<char> {
    match ty {
        TypeDesc::Path(segments) => {
            if segments@.len() > 0 {
                segments@.last().ident@
            } else {
                Seq::empty()
            }
        },
        TypeDesc::Other => Seq::empty(),
    }
}

/// Whether a field of this declared type is optional.
pub open spec fn is_optional(ty: TypeDesc) -> bool {
    optional_inner(ty) is Some
}

/// The terminal name of the type that a field of this declared type carries,
/// the optional wrapper taken off.
pub open spec fn carried_name(ty: TypeDesc) -> Seq<char> {
    match optional_inner(ty) {
        Some(inner) => terminal_name(inner),
        None => terminal_name(ty),
    }
}

/// The fields of a record definition, which must be a struct with named
/// fields.
pub fn get_fields_from_derive_input(di: &RecordDef) -> (fields: Result<&Vec<FieldDef>, SchemaError>)
    ensures
        match di.data {
            RecordData::Named(named) => fields == Ok::<&Vec<FieldDef>, SchemaError>(&named),
            RecordData::Other => fields == Err::<&Vec<FieldDef>, SchemaError>(
                SchemaError::NotAStruct,
            ),
        },
{
    match &di.data {
        RecordData::Named(named) => Ok(named),
        RecordData::Other => Err(SchemaError::NotAStruct),
    }
}

/// The type that an optional type wraps, or `None` for a type that is not
/// optional.
pub fn get_optional_inner_type(ty: &TypeDesc) -> (inner: Option<&TypeDesc>)
    ensures
        match inner {
            Some(carried) => optional_inner(*ty) == Some(*carried),
            None => optional_inner(*ty) is None,
        },
{
    if let TypeDesc::Path(segments) = ty {
        if segments.len() > 0 {
            let seg = &segments[segments.len() - 1];
            if text_eq(seg.ident.as_str(), OPTION_TYPE) {
                if let PathArgs::AngleBracketed(args) = &seg.args {
                    if args.len() > 0 {
                        if let GenericArg::Type(inner_ty) = &args[0] {
                            return Some(inner_ty);
                        }
                    }
                }
            }
        }
    }
    None
}

/// The terminal name of a type.
pub fn get_inner_type(ty: &TypeDesc) -> (name: String)
    ensures
        name@ == terminal_name(*ty),
{
    if let TypeDesc::Path(segments) = ty {
        if segments.len() > 0 {
            return segments[segments.len() - 1].ident.clone();
        }
    }
    String::new()
}

/// The check of one annotated field: where the invalid-expression holds,
/// validation fails with the message.
#[derive(Clone, Debug, PartialEq)]
pub struct FieldCheck {
    pub predicate: Predicate,
    pub message: String,
}

/// The mathematical form of a field's check.
pub struct FieldCheckView {
    pub predicate: PredicateView,
    pub message: Seq<char>,
}

impl View for FieldCheck {
    type V = FieldCheckView;

    open spec fn view(&self) -> FieldCheckView {
        FieldCheckView { predicate: self.predicate@, message: self.message@ }
    }
}

/// What the definition of a record expands to: the checks of its annotated
/// fields in declaration order, the patterns to register, each in the slot
/// that the checks know it by, and whether any annotated field is of the
/// decimal type.
#[derive(Clone, Debug, PartialEq)]
pub struct Expansion {
    pub record: String,
    pub checks: Vec<FieldCheck>,
    pub regexes: Vec<RegexRegistration>,
    pub uses_decimal: bool,
}

/// The mathematical form of an expansion.
pub struct ExpansionView {
    pub record: Seq<char>,
    pub checks: Seq<FieldCheckView>,
    pub regexes: Seq<RegistrationView>,
    pub uses_decimal: bool,
}

impl View for Expansion {
    type V = ExpansionView;

    open spec fn view(&self) -> ExpansionView {
        ExpansionView {
            record: self.record@,
            checks: views(self.checks@),
            regexes: views(self.regexes@),
            uses_decimal: self.uses_decimal,
        }
    }
}

/// The outcome of an expansion, in mathematical form.
pub open spec fn expansion_result(expanded: Result<Expansion, SchemaError>) -> Result<
    ExpansionView,
    SchemaError,
> {
    match expanded {
        Ok(expansion) => Ok(expansion@),
        Err(e) => Err(e),
    }
}

/// The expansion of a record without annotated fields.
pub open spec fn empty_expansion(record: Seq<char>) -> ExpansionView {
    ExpansionView { record, checks: Seq::empty(), regexes: Seq::empty(), uses_decimal: false }
}

/// An expansion with the check of one more group, attached to the given
/// field: its `regex` rules take the next free slots.
pub open spec fn with_group(so_far: ExpansionView, field: FieldDef, group: GroupView) -> ExpansionView {
    ExpansionView {
        record: so_far.record,
        checks: so_far.checks.push(
            FieldCheckView {
                predicate: predicate_of_group(
                    group,
                    field.name@,
                    is_optional(field.ty),
                    carried_name(field.ty),
                    so_far.regexes.len(),
                ),
                message: group.message,
            },
        ),
        regexes: so_far.regexes + registrations_of_group(group, field.name@),
        uses_decimal: so_far.uses_decimal || carried_name(field.ty) == DECIMAL_TYPE@,
    }
}

/// An expansion with the checks of the first `n` annotations of a field, or
/// the error of the first of them that does not compile. `position` is the
/// field's place among the fields.
pub open spec fn expand_attrs(
    field: FieldDef,
    position: nat,
    n: nat,
    start: ExpansionView,
) -> Result<ExpansionView, SchemaError>
    decreases n,
{
    if n == 0 {
        Ok(start)
    } else {
        match expand_attrs(field, position, (n - 1) as nat, start) {
            Err(e) => Err(e),
            Ok(so_far) => match group_of_attr(field.attrs@[n - 1], start.record) {
                Err(kind) => Err(
                    SchemaError::Annotation {
                        field: position as usize,
                        attr: (n - 1) as usize,
                        kind,
                    },
                ),
                Ok(group) => Ok(with_group(so_far, field, group)),
            },
        }
    }
}

/// The expansion of the first `n` fields of a record, or the error of the
/// first annotation that does not compile, fields and their annotations taken
/// in the order written.
pub open spec fn expand_fields(fields: Seq<FieldDef>, record: Seq<char>, n: nat) -> Result<
    ExpansionView,
    SchemaError,
>
    decreases n,
{
    if n == 0 {
        Ok(empty_expansion(record))
    } else {
        match expand_fields(fields, record, (n - 1) as nat) {
            Err(e) => Err(e),
            Ok(so_far) => expand_attrs(
                fields[n - 1],
                (n - 1) as nat,
                fields[n - 1].attrs@.len(),
                so_far,
            ),
        }
    }
}

/// The expansion of a record definition.
pub open spec fn expand_record(st: RecordDef) -> Result<ExpansionView, SchemaError> {
    match st.data {
        RecordData::Named(fields) => expand_fields(fields@, st.ident@, fields@.len()),
        RecordData::Other => Err(SchemaError::NotAStruct),
    }
}

/// Once an annotation of a field does not compile, no later one mends it.
pub proof fn lemma_attr_error_sticks(
    field: FieldDef,
    position: nat,
    n: nat,
    m: nat,
    start: ExpansionView,
)
    requires
        n <= m,
        expand_attrs(field, position, n, start) is Err,
    ensures
        expand_attrs(field, position, m, start) == expand_attrs(field, position, n, start),
    decreases m,
{
    if n < m {
        lemma_attr_error_sticks(field, position, n, (m - 1) as nat, start);
    }
}

/// Once a field does not compile, no later one mends it.
pub proof fn lemma_field_error_sticks(fields: Seq<FieldDef>, record: Seq<char>, n: nat, m: nat)
    requires
        n <= m,
        expand_fields(fields, record, n) is Err,
    ensures
        expand_fields(fields, record, m) == expand_fields(fields, record, n),
    decreases m,
{
    if n < m {
        lemma_field_error_sticks(fields, record, n, (m - 1) as nat);
    }
}

/// Compiles every annotation of every field, in the order written, into the
/// checks and registrations of the record `struct_ident`. Stops at the first
/// annotation that does not compile.
#[verifier::loop_isolation(false)]
pub fn valid_expand(fields: &Vec<FieldDef>, struct_ident: &str) -> (expanded: Result<
    Expansion,
    SchemaError,
>)
    ensures
        expansion_result(expanded) == expand_fields(fields@, struct_ident@, fields@.len()),
{
    let mut checks: Vec<FieldCheck> = Vec::new();
    let mut add_big_decimal: bool = false;
    let mut static_ref: Vec<RegexRegistration> = Vec::new();
    let ghost mut so_far: ExpansionView = empty_expansion(struct_ident@);
    assert(views(checks@) == so_far.checks);
    assert(views(static_ref@) == so_far.regexes);
    let mut i: usize = 0;
    while i < fields.len()
        invariant
            i <= fields.len(),
            expand_fields(fields@, struct_ident@, i as nat) == Ok::<ExpansionView, SchemaError>(
                so_far,
            ),
            so_far == (ExpansionView {
                record: struct_ident@,
                checks: views(checks@),
                regexes: views(static_ref@),
                uses_decimal: add_big_decimal,
            }),
        decreases fields.len() - i,
    {
        let f: &FieldDef = &fields[i];
        let ghost start: ExpansionView = so_far;
        let mut j: usize = 0;
        while j < f.attrs.len()
            invariant
                j <= f.attrs.len(),
                i < fields.len(),
                f == &fields[i as int],
                start.record == struct_ident@,
                expand_fields(fields@, struct_ident@, i as nat) == Ok::<
                    ExpansionView,
                    SchemaError,
                >(start),
                expand_attrs(*f, i as nat, j as nat, start) == Ok::<ExpansionView, SchemaError>(
                    so_far,
                ),
                so_far == (ExpansionView {
                    record: struct_ident@,
                    checks: views(checks@),
                    regexes: views(static_ref@),
                    uses_decimal: add_big_decimal,
                }),
            decreases f.attrs.len() - j,
        {
            let meta: ValidateMeta = match ValidateMeta::from_valid_attr(&f.attrs[j], struct_ident) {
                Ok(meta) => meta,
                Err(kind) => {
                    proof {
                        lemma_attr_error_sticks(
                            *f,
                            i as nat,
                            (j + 1) as nat,
                            f.attrs@.len(),
                            start,
                        );
                        lemma_field_error_sticks(
                            fields@,
                            struct_ident@,
                            (i + 1) as nat,
                            fields@.len(),
                        );
                    }
                    return Err(SchemaError::Annotation { field: i, attr: j, kind });
                },
            };
            let field_type: Option<&TypeDesc> = get_optional_inner_type(&f.ty);
            let type_: String = match field_type {
                Some(inner) => get_inner_type(inner),
                None => get_inner_type(&f.ty),
            };
            let mt: Predicate = meta.validate_token(
                f.name.as_str(),
                field_type.is_some(),
                type_.as_str(),
                &mut static_ref,
            );
            let ghost group: GroupView = meta@;
            let msg: String = meta.err_msg;
            if !add_big_decimal && text_eq(type_.as_str(), DECIMAL_TYPE) {
                add_big_decimal = true;
            }
            let ghost before = views(checks@);
            let check = FieldCheck { predicate: mt, message: msg };
            checks.push(check);
            proof {
                assert(views(checks@) == before.push(check@));
                so_far = with_group(so_far, *f, group);
            }
            j = j + 1;
        }
        i = i + 1;
    }
    Ok(Expansion { record: struct_ident.to_owned(), checks, regexes: static_ref, uses_decimal: add_big_decimal })
}

/// Expands the definition of a record into what its validator is made of.
pub fn do_expand(st: &RecordDef) -> (expanded: Result<Expansion, SchemaError>)
    ensures
        expansion_result(expanded) == expand_record(*st),
{
    let fields: &Vec<FieldDef> = match get_fields_from_derive_input(st) {
        Ok(fields) => fields,
        Err(e) => {
            return Err(e);
        },
    };
    valid_expand(fields, st.ident.as_str())
}

} // verus!
