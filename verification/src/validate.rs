//! The schema validator: a recursive, cycle-guarded walk that checks a
//! value against a schema node and collects every violation.
//!
//! The walk never stops at the first problem: every applicable check
//! runs and contributes its violations in document order. References
//! met along the way are resolved one hop at a time; a pointer that
//! repeats along the current chain of hops, with no value consumed in
//! between, is reported as `CyclicSchema` instead of being followed
//! again.

use vstd::math::abs;
use vstd::prelude::*;

use crate::document::Document;
use crate::formats::regex_compiles;
use crate::formats::regex_is_match;
use crate::formats::regex_matches;
use crate::formats::uri_is_valid;
use crate::formats::uri_wellformed;
use crate::resolve::lookup;
use crate::resolve::resolve_schema;
use crate::resolve::spec_lookup;
use crate::resolve::spec_resolve_schema;
use crate::resolve::str_eq;
use crate::schema::AdditionalProperties;
use crate::schema::ObjectOrReference;
use crate::schema::Schema;
use crate::value::arr_model;
use crate::value::kind_of;
use crate::value::lemma_arr_model;
use crate::value::lemma_obj_model;
use crate::value::obj_model;
use crate::value::spec_kind_of;
use crate::value::spec_type_matches;
use crate::value::type_matches;
use crate::value::value_eq;
use crate::value::value_model;
use crate::value::SchemaType;
use crate::value::Value;
use crate::value::ValueModel;

verus! {

/// One step of a JSON-Pointer-style path into a value: an array index
/// or an object key.
#[derive(Debug, PartialEq)]
pub enum PathSeg {
    /// The element at this index of an array.
    Index(usize),
    /// The value under this key of an object.
    Key(String),
}

/// The mathematical shape of a [`PathSeg`].
pub enum PathSegModel {
    Index(int),
    Key(Seq<char>),
}

impl View for PathSeg {
    type V = PathSegModel;

    open spec fn view(&self) -> PathSegModel {
        match self {
            PathSeg::Index(i) => PathSegModel::Index(*i as int),
            PathSeg::Key(k) => PathSegModel::Key(k@),
        }
    }
}

/// One way a value fails to conform to a schema.
#[derive(Debug, PartialEq)]
pub enum ViolationKind {
    /// The value's kind is not among the declared types.
    TypeMismatch { expected: Vec<SchemaType>, actual: SchemaType },
    /// The value deep-equals no enumerated value, or not the constant.
    NotInEnum,
    /// The number is below `minimum`, or not above `exclusiveMinimum`.
    BelowMinimum,
    /// The number is above `maximum`, or not below `exclusiveMaximum`.
    AboveMaximum,
    /// The number is not an integer multiple of `multipleOf`.
    NotMultipleOf,
    /// The string is shorter than `minLength`.
    StringTooShort,
    /// The string is longer than `maxLength`.
    StringTooLong,
    /// The string does not match `pattern`.
    PatternMismatch,
    /// The string does not satisfy the named `format`.
    FormatInvalid,
    /// The array is shorter than `minItems`.
    ArrayTooShort,
    /// The array is longer than `maxItems`.
    ArrayTooLong,
    /// Two elements of the array deep-equal each other.
    DuplicateItems,
    /// A key named in `required` is absent.
    MissingRequiredProperty { name: String },
    /// A key matches no declared property and `additionalProperties`
    /// is `false`.
    UnexpectedProperty { name: String },
    /// No `oneOf` branch accepts the value.
    NoMatchingBranch,
    /// More than one `oneOf` branch accepts the value.
    MultipleMatchingBranches,
    /// The `not` schema accepts the value.
    DisallowedByNot,
    /// A reference met during validation does not resolve.
    UnresolvableSchema,
    /// A reference chain repeats, or the depth guard ran out.
    CyclicSchema,
}

/// The mathematical shape of a [`ViolationKind`].
pub enum ViolationKindModel {
    TypeMismatch { expected: Seq<SchemaType>, actual: SchemaType },
    NotInEnum,
    BelowMinimum,
    AboveMaximum,
    NotMultipleOf,
    StringTooShort,
    StringTooLong,
    PatternMismatch,
    FormatInvalid,
    ArrayTooShort,
    ArrayTooLong,
    DuplicateItems,
    MissingRequiredProperty { name: Seq<char> },
    UnexpectedProperty { name: Seq<char> },
    NoMatchingBranch,
    MultipleMatchingBranches,
    DisallowedByNot,
    UnresolvableSchema,
    CyclicSchema,
}

impl View for ViolationKind {
    type V = ViolationKindModel;

    open spec fn view(&self) -> ViolationKindModel {
        match self {
            ViolationKind::TypeMismatch { expected, actual } => {
                ViolationKindModel::TypeMismatch { expected: expected@, actual: *actual }
            },
            ViolationKind::NotInEnum => ViolationKindModel::NotInEnum,
            ViolationKind::BelowMinimum => ViolationKindModel::BelowMinimum,
            ViolationKind::AboveMaximum => ViolationKindModel::AboveMaximum,
            ViolationKind::NotMultipleOf => ViolationKindModel::NotMultipleOf,
            ViolationKind::StringTooShort => ViolationKindModel::StringTooShort,
            ViolationKind::StringTooLong => ViolationKindModel::StringTooLong,
            ViolationKind::PatternMismatch => ViolationKindModel::PatternMismatch,
            ViolationKind::FormatInvalid => ViolationKindModel::FormatInvalid,
            ViolationKind::ArrayTooShort => ViolationKindModel::ArrayTooShort,
            ViolationKind::ArrayTooLong => ViolationKindModel::ArrayTooLong,
            ViolationKind::DuplicateItems => ViolationKindModel::DuplicateItems,
            ViolationKind::MissingRequiredProperty { name } => {
                ViolationKindModel::MissingRequiredProperty { name: name@ }
            },
            ViolationKind::UnexpectedProperty { name } => {
                ViolationKindModel::UnexpectedProperty { name: name@ }
            },
            ViolationKind::NoMatchingBranch => ViolationKindModel::NoMatchingBranch,
            ViolationKind::MultipleMatchingBranches => {
                ViolationKindModel::MultipleMatchingBranches
            },
            ViolationKind::DisallowedByNot => ViolationKindModel::DisallowedByNot,
            ViolationKind::UnresolvableSchema => ViolationKindModel::UnresolvableSchema,
            ViolationKind::CyclicSchema => ViolationKindModel::CyclicSchema,
        }
    }
}

/// One violation: where in the value it was found, and what it is.
#[derive(Debug, PartialEq)]
pub struct Violation {
    /// The path from the root of the validated value to the offending
    /// node.
    pub path: Vec<PathSeg>,
    /// What went wrong there.
    pub kind: ViolationKind,
}

/// The mathematical shape of a [`Violation`].
pub struct ViolationModel {
    pub path: Seq<PathSegModel>,
    pub kind: ViolationKindModel,
}

impl View for Violation {
    type V = ViolationModel;

    open spec fn view(&self) -> ViolationModel {
        ViolationModel { path: path_model(self.path@), kind: self.kind@ }
    }
}

/// The models of a path, segment by segment.
pub open spec fn path_model(p: Seq<PathSeg>) -> Seq<PathSegModel> {
    p.map_values(|s: PathSeg| s@)
}

/// The models of a violation list, violation by violation.
pub open spec fn viols_model(vs: Seq<Violation>) -> Seq<ViolationModel> {
    vs.map_values(|v: Violation| v@)
}

/// The views of a list of visited pointer strings.
pub open spec fn visited_model(vs: Seq<String>) -> Seq<Seq<char>> {
    vs.map_values(|s: String| s@)
}

/// A single violation at `path`.
pub open spec fn one_viol(path: Seq<PathSegModel>, kind: ViolationKindModel) -> Seq<
    ViolationModel,
> {
    seq![ViolationModel { path, kind }]
}

/// The result of one validation call: valid, or a nonempty list of
/// violations in evaluation order.
#[derive(Debug, PartialEq)]
pub enum ValidationOutcome {
    /// The value conforms to the schema.
    Valid,
    /// The value does not conform; every violation found is listed.
    Invalid(Vec<Violation>),
}

impl View for ValidationOutcome {
    type V = Seq<ViolationModel>;

    open spec fn view(&self) -> Seq<ViolationModel> {
        match self {
            ValidationOutcome::Valid => Seq::empty(),
            ValidationOutcome::Invalid(vs) => viols_model(vs@),
        }
    }
}

/// Whether some declared type admits the value.
pub open spec fn spec_type_ok(types: Seq<SchemaType>, v: ValueModel) -> bool {
    exists|i: int| 0 <= i < types.len() && spec_type_matches(types[i], v)
}

/// The type-keyword check.
pub open spec fn spec_type_viols(sch: Schema, v: ValueModel, path: Seq<PathSegModel>) -> Seq<
    ViolationModel,
> {
    if sch.schema_types@.len() > 0 && !spec_type_ok(sch.schema_types@, v) {
        one_viol(
            path,
            ViolationKindModel::TypeMismatch {
                expected: sch.schema_types@,
                actual: spec_kind_of(v),
            },
        )
    } else {
        Seq::empty()
    }
}

/// Whether the list holds a value deep-equal to `v`.
pub open spec fn spec_in_list(list: Seq<ValueModel>, v: ValueModel) -> bool {
    exists|i: int| 0 <= i < list.len() && list[i] == v
}

/// The `enum` and `const` checks.
pub open spec fn spec_enum_viols(sch: Schema, v: ValueModel, path: Seq<PathSegModel>) -> Seq<
    ViolationModel,
> {
    (if sch.enum_values@.len() > 0 && !spec_in_list(arr_model(sch.enum_values@), v) {
        one_viol(path, ViolationKindModel::NotInEnum)
    } else {
        Seq::empty()
    }) + (match sch.const_value {
        Some(c) => {
            if value_model(*c) != v {
                one_viol(path, ViolationKindModel::NotInEnum)
            } else {
                Seq::empty()
            }
        },
        None => Seq::empty(),
    })
}

/// Whether `n` is an integer multiple of `m`; meaningful for `m > 0`.
pub open spec fn spec_is_multiple_of(n: int, m: int) -> bool {
    (abs(n) as int) % m == 0
}

/// The numeric bound checks; empty for non-numbers.
pub open spec fn spec_number_viols(sch: Schema, v: ValueModel, path: Seq<PathSegModel>) -> Seq<
    ViolationModel,
> {
    match v {
        ValueModel::Int(n) => (match sch.minimum {
            Some(m) => {
                if n < m {
                    one_viol(path, ViolationKindModel::BelowMinimum)
                } else {
                    Seq::empty()
                }
            },
            None => Seq::empty(),
        }) + (match sch.exclusive_minimum {
            Some(m) => {
                if n <= m {
                    one_viol(path, ViolationKindModel::BelowMinimum)
                } else {
                    Seq::empty()
                }
            },
            None => Seq::empty(),
        }) + (match sch.maximum {
            Some(m) => {
                if n > m {
                    one_viol(path, ViolationKindModel::AboveMaximum)
                } else {
                    Seq::empty()
                }
            },
            None => Seq::empty(),
        }) + (match sch.exclusive_maximum {
            Some(m) => {
                if n >= m {
                    one_viol(path, ViolationKindModel::AboveMaximum)
                } else {
                    Seq::empty()
                }
            },
            None => Seq::empty(),
        }) + (match sch.multiple_of {
            Some(m) => {
                if m > 0 && !spec_is_multiple_of(n, m as int) {
                    one_viol(path, ViolationKindModel::NotMultipleOf)
                } else {
                    Seq::empty()
                }
            },
            None => Seq::empty(),
        }),
        _ => Seq::empty(),
    }
}

/// The string constraint checks; empty for non-strings. Lengths count
/// unicode scalars. An unrecognized `format` name, or a `pattern` that
/// is not a valid regular expression, constrains nothing.
pub open spec fn spec_string_viols(sch: Schema, v: ValueModel, path: Seq<PathSegModel>) -> Seq<
    ViolationModel,
> {
    match v {
        ValueModel::Str(s) => (match sch.min_length {
            Some(l) => {
                if s.len() < l {
                    one_viol(path, ViolationKindModel::StringTooShort)
                } else {
                    Seq::empty()
                }
            },
            None => Seq::empty(),
        }) + (match sch.max_length {
            Some(l) => {
                if s.len() > l {
                    one_viol(path, ViolationKindModel::StringTooLong)
                } else {
                    Seq::empty()
                }
            },
            None => Seq::empty(),
        }) + (match sch.pattern {
            Some(p) => {
                if regex_compiles(p@) && !regex_matches(p@, s) {
                    one_viol(path, ViolationKindModel::PatternMismatch)
                } else {
                    Seq::empty()
                }
            },
            None => Seq::empty(),
        }) + (match sch.format {
            Some(f) => {
                if f@ == "uri"@ && !uri_wellformed(s) {
                    one_viol(path, ViolationKindModel::FormatInvalid)
                } else {
                    Seq::empty()
                }
            },
            None => Seq::empty(),
        }),
        _ => Seq::empty(),
    }
}

/// Whether two elements of the sequence deep-equal each other.
pub open spec fn spec_has_duplicates(elems: Seq<ValueModel>) -> bool {
    exists|i: int, j: int| 0 <= i < j < elems.len() && elems[i] == elems[j]
}

/// How many children the value has; used only to order the recursion.
pub open spec fn spec_size_hint(v: ValueModel) -> int {
    match v {
        ValueModel::Arr(elems) => elems.len() as int,
        ValueModel::Obj(entries) => entries.len() as int,
        _ => 0,
    }
}

/// The violations of the first `i` elements of the array against the
/// `items` cell. Descending into an element starts a fresh hop chain:
/// the visited set is empty and the fuel is the full budget.
pub open spec fn spec_items_upto(
    doc: Document,
    cell: ObjectOrReference<Schema>,
    arr: ValueModel,
    i: int,
    path: Seq<PathSegModel>,
    budget: nat,
    fuel: nat,
) -> Seq<ViolationModel>
    decreases arr, fuel, cell, i,
    via spec_items_upto_decreases
{
    match arr {
        ValueModel::Arr(elems) => {
            if 0 < i <= elems.len() {
                spec_items_upto(doc, cell, arr, i - 1, path, budget, fuel) + spec_check_cell(
                    doc,
                    cell,
                    elems[i - 1],
                    path.push(PathSegModel::Index(i - 1)),
                    Seq::empty(),
                    budget,
                    budget,
                )
            } else {
                Seq::empty()
            }
        },
        _ => Seq::empty(),
    }
}

#[via_fn]
proof fn spec_items_upto_decreases(
    doc: Document,
    cell: ObjectOrReference<Schema>,
    arr: ValueModel,
    i: int,
    path: Seq<PathSegModel>,
    budget: nat,
    fuel: nat,
) {
    match arr {
        ValueModel::Arr(elems) => {
            if 0 < i <= elems.len() {
                assert(decreases_to!(arr => arr->Arr_0));
                assert(arr->Arr_0 == elems);
                assert(decreases_to!(elems => elems[i - 1]));
            }
        },
        _ => {},
    }
}

/// The array constraint checks; empty for non-arrays.
pub open spec fn spec_array_viols(
    doc: Document,
    sch: Schema,
    v: ValueModel,
    path: Seq<PathSegModel>,
    budget: nat,
    fuel: nat,
) -> Seq<ViolationModel>
    decreases v, fuel, sch, spec_size_hint(v) + 1,
    via spec_array_viols_decreases
{
    match v {
        ValueModel::Arr(elems) => (match sch.min_items {
            Some(l) => {
                if elems.len() < l {
                    one_viol(path, ViolationKindModel::ArrayTooShort)
                } else {
                    Seq::empty()
                }
            },
            None => Seq::empty(),
        }) + (match sch.max_items {
            Some(l) => {
                if elems.len() > l {
                    one_viol(path, ViolationKindModel::ArrayTooLong)
                } else {
                    Seq::empty()
                }
            },
            None => Seq::empty(),
        }) + (if sch.unique_items && spec_has_duplicates(elems) {
            one_viol(path, ViolationKindModel::DuplicateItems)
        } else {
            Seq::empty()
        }) + (match sch.items {
            Some(b) => spec_items_upto(doc, *b, v, elems.len() as int, path, budget, fuel),
            None => Seq::empty(),
        }),
        _ => Seq::empty(),
    }
}

#[via_fn]
proof fn spec_array_viols_decreases(
    doc: Document,
    sch: Schema,
    v: ValueModel,
    path: Seq<PathSegModel>,
    budget: nat,
    fuel: nat,
) {
    match sch.items {
        Some(b) => {
            assert(decreases_to!(sch => sch.items));
            assert(decreases_to!(sch.items => sch.items->0));
            assert(sch.items->0 == b);
        },
        None => {},
    }
}

/// Whether the object holds a key with this name.
pub open spec fn spec_obj_has_key(
    entries: Seq<(Seq<char>, ValueModel)>,
    name: Seq<char>,
) -> bool {
    exists|i: int| 0 <= i < entries.len() && entries[i].0 == name
}

/// The `MissingRequiredProperty` violations for the first `i` required
/// names.
pub open spec fn spec_required_upto(
    req: Seq<String>,
    entries: Seq<(Seq<char>, ValueModel)>,
    i: int,
    path: Seq<PathSegModel>,
) -> Seq<ViolationModel>
    decreases i,
{
    if 0 < i <= req.len() {
        spec_required_upto(req, entries, i - 1, path) + (if !spec_obj_has_key(
            entries,
            req[i - 1]@,
        ) {
            one_viol(path, ViolationKindModel::MissingRequiredProperty { name: req[i - 1]@ })
        } else {
            Seq::empty()
        })
    } else {
        Seq::empty()
    }
}

/// The violations of the first `i` entries of the object: each entry
/// is checked against its declared property schema, or against the
/// additional-properties policy when no property matches. Descending
/// into an entry starts a fresh hop chain.
pub open spec fn spec_entries_upto(
    doc: Document,
    sch: Schema,
    obj: ValueModel,
    i: int,
    path: Seq<PathSegModel>,
    budget: nat,
    fuel: nat,
) -> Seq<ViolationModel>
    decreases obj, fuel, sch, i,
    via spec_entries_upto_decreases
{
    match obj {
        ValueModel::Obj(entries) => {
            if 0 < i <= entries.len() {
                spec_entries_upto(doc, sch, obj, i - 1, path, budget, fuel) + {
                    let k = entries[i - 1].0;
                    let child = path.push(PathSegModel::Key(k));
                    match spec_lookup(sch.properties@, k) {
                        Some(cell) => spec_check_cell(
                            doc,
                            cell,
                            entries[i - 1].1,
                            child,
                            Seq::empty(),
                            budget,
                            budget,
                        ),
                        None => match sch.additional_properties {
                            AdditionalProperties::Unconstrained => Seq::empty(),
                            AdditionalProperties::Forbidden => one_viol(
                                child,
                                ViolationKindModel::UnexpectedProperty { name: k },
                            ),
                            AdditionalProperties::Constrained(b) => spec_check_cell(
                                doc,
                                *b,
                                entries[i - 1].1,
                                child,
                                Seq::empty(),
                                budget,
                                budget,
                            ),
                        },
                    }
                }
            } else {
                Seq::empty()
            }
        },
        _ => Seq::empty(),
    }
}

#[via_fn]
proof fn spec_entries_upto_decreases(
    doc: Document,
    sch: Schema,
    obj: ValueModel,
    i: int,
    path: Seq<PathSegModel>,
    budget: nat,
    fuel: nat,
) {
    match obj {
        ValueModel::Obj(entries) => {
            if 0 < i <= entries.len() {
                assert(decreases_to!(obj => obj->Obj_0));
                assert(obj->Obj_0 == entries);
                assert(decreases_to!(entries => entries[i - 1]));
                assert(decreases_to!(entries[i - 1] => entries[i - 1].1));
            }
        },
        _ => {},
    }
}

/// The object constraint checks; empty for non-objects.
pub open spec fn spec_object_viols(
    doc: Document,
    sch: Schema,
    v: ValueModel,
    path: Seq<PathSegModel>,
    budget: nat,
    fuel: nat,
) -> Seq<ViolationModel>
    decreases v, fuel, sch, spec_size_hint(v) + 1,
{
    match v {
        ValueModel::Obj(entries) => spec_required_upto(
            sch.required@,
            entries,
            sch.required@.len() as int,
            path,
        ) + spec_entries_upto(doc, sch, v, entries.len() as int, path, budget, fuel),
        _ => Seq::empty(),
    }
}

/// The violations of the first `i` branches of an `allOf` list, all
/// concatenated: every branch must hold.
pub open spec fn spec_all_of_upto(
    doc: Document,
    branches: Seq<ObjectOrReference<Schema>>,
    v: ValueModel,
    i: int,
    path: Seq<PathSegModel>,
    visited: Seq<Seq<char>>,
    budget: nat,
    fuel: nat,
) -> Seq<ViolationModel>
    decreases v, fuel, branches, i,
    via spec_all_of_upto_decreases
{
    if 0 < i <= branches.len() {
        spec_all_of_upto(doc, branches, v, i - 1, path, visited, budget, fuel)
            + spec_check_cell(doc, branches[i - 1], v, path, visited, budget, fuel)
    } else {
        Seq::empty()
    }
}

#[via_fn]
proof fn spec_all_of_upto_decreases(
    doc: Document,
    branches: Seq<ObjectOrReference<Schema>>,
    v: ValueModel,
    i: int,
    path: Seq<PathSegModel>,
    visited: Seq<Seq<char>>,
    budget: nat,
    fuel: nat,
) {
    if 0 < i <= branches.len() {
        assert(decreases_to!(branches => branches[i - 1]));
    }
}

/// Whether branch `k` accepts the value outright.
pub open spec fn spec_branch_passes(
    doc: Document,
    cell: ObjectOrReference<Schema>,
    v: ValueModel,
    path: Seq<PathSegModel>,
    visited: Seq<Seq<char>>,
    budget: nat,
    fuel: nat,
) -> bool
    decreases v, fuel, cell, 1int,
{
    spec_check_cell(doc, cell, v, path, visited, budget, fuel).len() == 0
}

/// Whether some branch among the first `i` accepts the value.
pub open spec fn spec_some_branch_passes(
    doc: Document,
    branches: Seq<ObjectOrReference<Schema>>,
    v: ValueModel,
    i: int,
    path: Seq<PathSegModel>,
    visited: Seq<Seq<char>>,
    budget: nat,
    fuel: nat,
) -> bool
    decreases v, fuel, branches, i,
    via spec_some_branch_passes_decreases
{
    if 0 < i <= branches.len() {
        spec_some_branch_passes(doc, branches, v, i - 1, path, visited, budget, fuel)
            || spec_branch_passes(doc, branches[i - 1], v, path, visited, budget, fuel)
    } else {
        false
    }
}

#[via_fn]
proof fn spec_some_branch_passes_decreases(
    doc: Document,
    branches: Seq<ObjectOrReference<Schema>>,
    v: ValueModel,
    i: int,
    path: Seq<PathSegModel>,
    visited: Seq<Seq<char>>,
    budget: nat,
    fuel: nat,
) {
    if 0 < i <= branches.len() {
        assert(decreases_to!(branches => branches[i - 1]));
    }
}

/// One representative violation for each failing branch among the
/// first `i`: the branch's first violation.
pub open spec fn spec_reps_upto(
    doc: Document,
    branches: Seq<ObjectOrReference<Schema>>,
    v: ValueModel,
    i: int,
    path: Seq<PathSegModel>,
    visited: Seq<Seq<char>>,
    budget: nat,
    fuel: nat,
) -> Seq<ViolationModel>
    decreases v, fuel, branches, i,
    via spec_reps_upto_decreases
{
    if 0 < i <= branches.len() {
        spec_reps_upto(doc, branches, v, i - 1, path, visited, budget, fuel) + {
            let bv = spec_check_cell(doc, branches[i - 1], v, path, visited, budget, fuel);
            if bv.len() > 0 {
                seq![bv[0]]
            } else {
                Seq::empty()
            }
        }
    } else {
        Seq::empty()
    }
}

#[via_fn]
proof fn spec_reps_upto_decreases(
    doc: Document,
    branches: Seq<ObjectOrReference<Schema>>,
    v: ValueModel,
    i: int,
    path: Seq<PathSegModel>,
    visited: Seq<Seq<char>>,
    budget: nat,
    fuel: nat,
) {
    if 0 < i <= branches.len() {
        assert(decreases_to!(branches => branches[i - 1]));
    }
}

/// How many branches among the first `i` accept the value.
pub open spec fn spec_count_passing(
    doc: Document,
    branches: Seq<ObjectOrReference<Schema>>,
    v: ValueModel,
    i: int,
    path: Seq<PathSegModel>,
    visited: Seq<Seq<char>>,
    budget: nat,
    fuel: nat,
) -> int
    decreases v, fuel, branches, i,
    via spec_count_passing_decreases
{
    if 0 < i <= branches.len() {
        spec_count_passing(doc, branches, v, i - 1, path, visited, budget, fuel) + (
        if spec_branch_passes(doc, branches[i - 1], v, path, visited, budget, fuel) {
            1int
        } else {
            0int
        })
    } else {
        0
    }
}

#[via_fn]
proof fn spec_count_passing_decreases(
    doc: Document,
    branches: Seq<ObjectOrReference<Schema>>,
    v: ValueModel,
    i: int,
    path: Seq<PathSegModel>,
    visited: Seq<Seq<char>>,
    budget: nat,
    fuel: nat,
) {
    if 0 < i <= branches.len() {
        assert(decreases_to!(branches => branches[i - 1]));
    }
}

/// The `allOf` check: every branch must hold; each branch's
/// violations are kept in full, in branch order.
pub open spec fn spec_all_of_viols(
    doc: Document,
    sch: Schema,
    v: ValueModel,
    path: Seq<PathSegModel>,
    visited: Seq<Seq<char>>,
    budget: nat,
    fuel: nat,
) -> Seq<ViolationModel>
    decreases v, fuel, sch, 0int,
    via spec_all_of_viols_decreases
{
    spec_all_of_upto(doc, sch.all_of@, v, sch.all_of@.len() as int, path, visited, budget, fuel)
}

#[via_fn]
proof fn spec_all_of_viols_decreases(
    doc: Document,
    sch: Schema,
    v: ValueModel,
    path: Seq<PathSegModel>,
    visited: Seq<Seq<char>>,
    budget: nat,
    fuel: nat,
) {
    assert(decreases_to!(sch => sch.all_of));
    assert(decreases_to!(sch.all_of => sch.all_of@));
}

/// The `anyOf` check: empty when no branch is declared or some branch
/// passes; otherwise one representative violation per failing branch.
pub open spec fn spec_any_of_viols(
    doc: Document,
    sch: Schema,
    v: ValueModel,
    path: Seq<PathSegModel>,
    visited: Seq<Seq<char>>,
    budget: nat,
    fuel: nat,
) -> Seq<ViolationModel>
    decreases v, fuel, sch, 0int,
    via spec_any_of_viols_decreases
{
    if sch.any_of@.len() > 0 && !spec_some_branch_passes(
        doc,
        sch.any_of@,
        v,
        sch.any_of@.len() as int,
        path,
        visited,
        budget,
        fuel,
    ) {
        spec_reps_upto(doc, sch.any_of@, v, sch.any_of@.len() as int, path, visited, budget, fuel)
    } else {
        Seq::empty()
    }
}

#[via_fn]
proof fn spec_any_of_viols_decreases(
    doc: Document,
    sch: Schema,
    v: ValueModel,
    path: Seq<PathSegModel>,
    visited: Seq<Seq<char>>,
    budget: nat,
    fuel: nat,
) {
    assert(decreases_to!(sch => sch.any_of));
    assert(decreases_to!(sch.any_of => sch.any_of@));
}

/// The `oneOf` check: exactly one branch must pass; none is
/// `NoMatchingBranch`, two or more is `MultipleMatchingBranches`.
pub open spec fn spec_one_of_viols(
    doc: Document,
    sch: Schema,
    v: ValueModel,
    path: Seq<PathSegModel>,
    visited: Seq<Seq<char>>,
    budget: nat,
    fuel: nat,
) -> Seq<ViolationModel>
    decreases v, fuel, sch, 0int,
    via spec_one_of_viols_decreases
{
    if sch.one_of@.len() > 0 {
        let c = spec_count_passing(
            doc,
            sch.one_of@,
            v,
            sch.one_of@.len() as int,
            path,
            visited,
            budget,
            fuel,
        );
        if c == 0 {
            one_viol(path, ViolationKindModel::NoMatchingBranch)
        } else if c >= 2 {
            one_viol(path, ViolationKindModel::MultipleMatchingBranches)
        } else {
            Seq::empty()
        }
    } else {
        Seq::empty()
    }
}

#[via_fn]
proof fn spec_one_of_viols_decreases(
    doc: Document,
    sch: Schema,
    v: ValueModel,
    path: Seq<PathSegModel>,
    visited: Seq<Seq<char>>,
    budget: nat,
    fuel: nat,
) {
    assert(decreases_to!(sch => sch.one_of));
    assert(decreases_to!(sch.one_of => sch.one_of@));
}

/// The `not` check: the nested schema must fail outright.
pub open spec fn spec_not_viols(
    doc: Document,
    sch: Schema,
    v: ValueModel,
    path: Seq<PathSegModel>,
    visited: Seq<Seq<char>>,
    budget: nat,
    fuel: nat,
) -> Seq<ViolationModel>
    decreases v, fuel, sch, 0int,
    via spec_not_viols_decreases
{
    match sch.not_schema {
        Some(b) => {
            if spec_check_cell(doc, *b, v, path, visited, budget, fuel).len() == 0 {
                one_viol(path, ViolationKindModel::DisallowedByNot)
            } else {
                Seq::empty()
            }
        },
        None => Seq::empty(),
    }
}

#[via_fn]
proof fn spec_not_viols_decreases(
    doc: Document,
    sch: Schema,
    v: ValueModel,
    path: Seq<PathSegModel>,
    visited: Seq<Seq<char>>,
    budget: nat,
    fuel: nat,
) {
    match sch.not_schema {
        Some(b) => {
            assert(decreases_to!(sch => sch.not_schema));
            assert(decreases_to!(sch.not_schema => sch.not_schema->0));
            assert(sch.not_schema->0 == b);
        },
        None => {},
    }
}

/// The composition checks: `allOf`, `anyOf`, `oneOf` and `not`.
pub open spec fn spec_comp_viols(
    doc: Document,
    sch: Schema,
    v: ValueModel,
    path: Seq<PathSegModel>,
    visited: Seq<Seq<char>>,
    budget: nat,
    fuel: nat,
) -> Seq<ViolationModel>
    decreases v, fuel, sch, 1int,
{
    spec_all_of_viols(doc, sch, v, path, visited, budget, fuel) + spec_any_of_viols(
        doc,
        sch,
        v,
        path,
        visited,
        budget,
        fuel,
    ) + spec_one_of_viols(doc, sch, v, path, visited, budget, fuel) + spec_not_viols(
        doc,
        sch,
        v,
        path,
        visited,
        budget,
        fuel,
    )
}

/// Every check a schema node makes on a value, in evaluation order:
/// type, enum and const, numeric, string, array, object, composition.
pub open spec fn spec_check_schema(
    doc: Document,
    sch: Schema,
    v: ValueModel,
    path: Seq<PathSegModel>,
    visited: Seq<Seq<char>>,
    budget: nat,
    fuel: nat,
) -> Seq<ViolationModel>
    decreases v, fuel, sch, spec_size_hint(v) + 2,
{
    spec_type_viols(sch, v, path) + spec_enum_viols(sch, v, path) + spec_number_viols(
        sch,
        v,
        path,
    ) + spec_string_viols(sch, v, path) + spec_array_viols(doc, sch, v, path, budget, fuel)
        + spec_object_viols(doc, sch, v, path, budget, fuel) + spec_comp_viols(
        doc,
        sch,
        v,
        path,
        visited,
        budget,
        fuel,
    )
}

/// One cell of the walk: an inline schema is checked directly; a
/// reference is resolved one hop and the target checked, unless the
/// pointer repeats along the current hop chain or the depth guard is
/// exhausted, which yields `CyclicSchema`, or the hop fails, which
/// yields `UnresolvableSchema`.
pub open spec fn spec_check_cell(
    doc: Document,
    cell: ObjectOrReference<Schema>,
    v: ValueModel,
    path: Seq<PathSegModel>,
    visited: Seq<Seq<char>>,
    budget: nat,
    fuel: nat,
) -> Seq<ViolationModel>
    decreases v, fuel, cell, 0int,
    via spec_check_cell_decreases
{
    match cell {
        ObjectOrReference::Object(s) => spec_check_schema(doc, s, v, path, visited, budget, fuel),
        ObjectOrReference::Ref { ref_path } => match spec_resolve_schema(cell, doc) {
            Err(_) => one_viol(path, ViolationKindModel::UnresolvableSchema),
            Ok(s) => {
                if visited.contains(ref_path@) {
                    one_viol(path, ViolationKindModel::CyclicSchema)
                } else if fuel == 0 {
                    one_viol(path, ViolationKindModel::CyclicSchema)
                } else {
                    spec_check_schema(
                        doc,
                        s,
                        v,
                        path,
                        visited.push(ref_path@),
                        budget,
                        (fuel - 1) as nat,
                    )
                }
            },
        },
    }
}

#[via_fn]
proof fn spec_check_cell_decreases(
    doc: Document,
    cell: ObjectOrReference<Schema>,
    v: ValueModel,
    path: Seq<PathSegModel>,
    visited: Seq<Seq<char>>,
    budget: nat,
    fuel: nat,
) {
    match cell {
        ObjectOrReference::Object(s) => {
            assert(decreases_to!(cell => cell->Object_0));
            assert(cell->Object_0 == s);
        },
        ObjectOrReference::Ref { .. } => {},
    }
}

/// The whole validation of a value against a schema node within a
/// document, with `depth` as the hop budget of every chain of
/// reference hops.
pub open spec fn spec_validate(doc: Document, sch: Schema, v: ValueModel, depth: nat) -> Seq<
    ViolationModel,
> {
    spec_check_schema(doc, sch, v, Seq::empty(), Seq::empty(), depth, depth)
}

/// Mapping a concatenation maps each part.
pub proof fn lemma_viols_model_add(a: Seq<Violation>, b: Seq<Violation>)
    ensures
        viols_model(a + b) == viols_model(a) + viols_model(b),
{
    assert(viols_model(a + b) =~= viols_model(a) + viols_model(b));
}

fn clone_path(p: &Vec<PathSeg>) -> (r: Vec<PathSeg>)
    ensures
        path_model(r@) == path_model(p@),
{
    let mut out: Vec<PathSeg> = Vec::new();
    let mut i: usize = 0;
    while i < p.len()
        invariant
            i <= p@.len(),
            out@.len() == i,
            forall|j: int| 0 <= j < i ==> out@[j]@ == p@[j]@,
        decreases p@.len() - i,
    {
        match &p[i] {
            PathSeg::Index(n) => out.push(PathSeg::Index(*n)),
            PathSeg::Key(k) => out.push(PathSeg::Key(k.clone())),
        }
        i += 1;
    }
    proof {
        assert(path_model(out@) =~= path_model(p@));
    }
    out
}

fn child_path(path: &Vec<PathSeg>, seg: PathSeg) -> (r: Vec<PathSeg>)
    ensures
        path_model(r@) == path_model(path@).push(seg@),
{
    let ghost sm = seg@;
    let mut out = clone_path(path);
    let ghost base = path_model(out@);
    let ghost prev = out@;
    out.push(seg);
    proof {
        assert(out@ == prev.push(seg));
        assert(path_model(out@).len() == base.len() + 1);
        assert forall|j: int| 0 <= j < base.len() implies path_model(out@)[j] == base[j] by {
            assert(out@[j] == prev[j]);
            assert(path_model(out@)[j] == out@[j]@);
            assert(base[j] == prev[j]@);
        }
        assert(path_model(out@)[base.len() as int] == sm);
        assert(path_model(out@) =~= base.push(sm));
    }
    out
}

fn push_viol(out: &mut Vec<Violation>, path: &Vec<PathSeg>, kind: ViolationKind)
    ensures
        viols_model(final(out)@) == viols_model(old(out)@) + one_viol(path_model(path@), kind@),
{
    let ghost k = kind@;
    out.push(Violation { path: clone_path(path), kind });
    proof {
        assert(viols_model(out@) =~= viols_model(old(out)@) + one_viol(
            path_model(path@),
            k,
        ));
    }
}

/// The type-keyword check of [`spec_type_viols`], executed.
fn type_section(sch: &Schema, v: &Value, path: &Vec<PathSeg>) -> (r: Vec<Violation>)
    ensures
        viols_model(r@) == spec_type_viols(*sch, v@, path_model(path@)),
{
    let mut out: Vec<Violation> = Vec::new();
    let n = sch.schema_types.len();
    if n == 0 {
        proof {
            assert(viols_model(out@) =~= Seq::<ViolationModel>::empty());
        }
        return out;
    }
    let mut ok = false;
    let mut i: usize = 0;
    while i < n
        invariant
            i <= n,
            n == sch.schema_types@.len(),
            ok == exists|j: int|
                0 <= j < i && spec_type_matches(sch.schema_types@[j], v@),
        decreases n - i,
    {
        if type_matches(sch.schema_types[i], v) {
            ok = true;
        }
        i += 1;
    }
    if !ok {
        let mut expected: Vec<SchemaType> = Vec::new();
        let mut j: usize = 0;
        while j < n
            invariant
                j <= n,
                n == sch.schema_types@.len(),
                expected@.len() == j,
                forall|k: int| 0 <= k < j ==> expected@[k] == sch.schema_types@[k],
            decreases n - j,
        {
            expected.push(sch.schema_types[j]);
            j += 1;
        }
        proof {
            assert(expected@ =~= sch.schema_types@);
        }
        push_viol(
            &mut out,
            path,
            ViolationKind::TypeMismatch { expected, actual: kind_of(v) },
        );
        proof {
            assert(viols_model(out@) =~= spec_type_viols(*sch, v@, path_model(path@)));
        }
    } else {
        proof {
            assert(viols_model(out@) =~= spec_type_viols(*sch, v@, path_model(path@)));
        }
    }
    out
}

/// The `enum` and `const` checks of [`spec_enum_viols`], executed.
fn enum_section(sch: &Schema, v: &Value, path: &Vec<PathSeg>) -> (r: Vec<Violation>)
    ensures
        viols_model(r@) == spec_enum_viols(*sch, v@, path_model(path@)),
{
    let mut out: Vec<Violation> = Vec::new();
    proof {
        lemma_arr_model(sch.enum_values@);
    }
    let n = sch.enum_values.len();
    if n > 0 {
        let mut found = false;
        let mut i: usize = 0;
        while i < n
            invariant
                i <= n,
                n == sch.enum_values@.len(),
                arr_model(sch.enum_values@).len() == n,
                forall|j: int|
                    0 <= j < n ==> arr_model(sch.enum_values@)[j] == value_model(
                        #[trigger] sch.enum_values@[j],
                    ),
                found == exists|j: int|
                    0 <= j < i && arr_model(sch.enum_values@)[j] == v@,
            decreases n - i,
        {
            if value_eq(&sch.enum_values[i], v) {
                found = true;
            }
            i += 1;
        }
        if !found {
            push_viol(&mut out, path, ViolationKind::NotInEnum);
        }
    }
    match &sch.const_value {
        Some(c) => {
            if !value_eq(c, v) {
                push_viol(&mut out, path, ViolationKind::NotInEnum);
            }
        },
        None => {},
    }
    proof {
        assert(viols_model(out@) =~= spec_enum_viols(*sch, v@, path_model(path@)));
    }
    out
}

/// The numeric bound checks of [`spec_number_viols`], executed.
fn number_section(sch: &Schema, v: &Value, path: &Vec<PathSeg>) -> (r: Vec<Violation>)
    ensures
        viols_model(r@) == spec_number_viols(*sch, v@, path_model(path@)),
{
    let mut out: Vec<Violation> = Vec::new();
    match v {
        Value::Int(n) => {
            if let Some(m) = sch.minimum {
                if *n < m {
                    push_viol(&mut out, path, ViolationKind::BelowMinimum);
                }
            }
            if let Some(m) = sch.exclusive_minimum {
                if *n <= m {
                    push_viol(&mut out, path, ViolationKind::BelowMinimum);
                }
            }
            if let Some(m) = sch.maximum {
                if *n > m {
                    push_viol(&mut out, path, ViolationKind::AboveMaximum);
                }
            }
            if let Some(m) = sch.exclusive_maximum {
                if *n >= m {
                    push_viol(&mut out, path, ViolationKind::AboveMaximum);
                }
            }
            if let Some(m) = sch.multiple_of {
                if m > 0 {
                    let nn: u64 = if *n >= 0 {
                        *n as u64
                    } else if *n == i64::MIN {
                        9223372036854775808u64
                    } else {
                        (-*n) as u64
                    };
                    proof {
                        assert(nn as int == abs(*n as int));
                    }
                    if nn % (m as u64) != 0 {
                        push_viol(&mut out, path, ViolationKind::NotMultipleOf);
                    }
                }
            }
            proof {
                assert(viols_model(out@) =~= spec_number_viols(*sch, v@, path_model(path@)));
            }
        },
        _ => {
            proof {
                assert(viols_model(out@) =~= spec_number_viols(*sch, v@, path_model(path@)));
            }
        },
    }
    out
}

/// The string constraint checks of [`spec_string_viols`], executed.
fn string_section(sch: &Schema, v: &Value, path: &Vec<PathSeg>) -> (r: Vec<Violation>)
    ensures
        viols_model(r@) == spec_string_viols(*sch, v@, path_model(path@)),
{
    let mut out: Vec<Violation> = Vec::new();
    match v {
        Value::Str(s) => {
            let len = s.as_str().unicode_len();
            if let Some(l) = sch.min_length {
                if len < l {
                    push_viol(&mut out, path, ViolationKind::StringTooShort);
                }
            }
            if let Some(l) = sch.max_length {
                if len > l {
                    push_viol(&mut out, path, ViolationKind::StringTooLong);
                }
            }
            match &sch.pattern {
                Some(p) => {
                    match regex_is_match(p.as_str(), s.as_str()) {
                        Some(m) => {
                            if !m {
                                push_viol(&mut out, path, ViolationKind::PatternMismatch);
                            }
                        },
                        None => {},
                    }
                },
                None => {},
            }
            match &sch.format {
                Some(f) => {
                    if str_eq(f.as_str(), "uri") {
                        if !uri_is_valid(s.as_str()) {
                            push_viol(&mut out, path, ViolationKind::FormatInvalid);
                        }
                    }
                },
                None => {},
            }
            proof {
                assert(viols_model(out@) =~= spec_string_viols(*sch, v@, path_model(path@)));
            }
        },
        _ => {
            proof {
                assert(viols_model(out@) =~= spec_string_viols(*sch, v@, path_model(path@)));
            }
        },
    }
    out
}

fn contains_string(visited: &Vec<String>, s: &str) -> (r: bool)
    ensures
        r == visited_model(visited@).contains(s@),
{
    let n = visited.len();
    let mut i: usize = 0;
    while i < n
        invariant
            i <= n,
            n == visited@.len(),
            forall|j: int| 0 <= j < i ==> visited@[j]@ != s@,
        decreases n - i,
    {
        if str_eq(visited[i].as_str(), s) {
            proof {
                assert(visited_model(visited@)[i as int] == s@);
            }
            return true;
        }
        i += 1;
    }
    proof {
        assert forall|j: int| 0 <= j < visited_model(visited@).len() implies visited_model(
            visited@,
        )[j] != s@ by {
            assert(visited_model(visited@)[j] == visited@[j]@);
        }
    }
    false
}

fn push_visited(visited: &Vec<String>, p: &String) -> (r: Vec<String>)
    ensures
        visited_model(r@) == visited_model(visited@).push(p@),
{
    let n = visited.len();
    let mut out: Vec<String> = Vec::new();
    let mut i: usize = 0;
    while i < n
        invariant
            i <= n,
            n == visited@.len(),
            out@.len() == i,
            forall|j: int| 0 <= j < i ==> out@[j]@ == visited@[j]@,
        decreases n - i,
    {
        out.push(visited[i].clone());
        i += 1;
    }
    out.push(p.clone());
    proof {
        assert(visited_model(out@) =~= visited_model(visited@).push(p@));
    }
    out
}

/// The array constraint checks of [`spec_array_viols`], executed.
fn array_section(
    doc: &Document,
    sch: &Schema,
    v: &Value,
    path: &Vec<PathSeg>,
    budget: u32,
    fuel: u32,
) -> (r: Vec<Violation>)
    ensures
        viols_model(r@) == spec_array_viols(
            *doc,
            *sch,
            v@,
            path_model(path@),
            budget as nat,
            fuel as nat,
        ),
    decreases *v, fuel, *sch, spec_size_hint(v@) + 1,
{
    let ghost pm = path_model(path@);
    let mut out: Vec<Violation> = Vec::new();
    match v {
        Value::Arr(xs) => {
            proof {
                lemma_arr_model(xs@);
            }
            let n = xs.len();
            if let Some(l) = sch.min_items {
                if n < l {
                    push_viol(&mut out, path, ViolationKind::ArrayTooShort);
                }
            }
            if let Some(l) = sch.max_items {
                if n > l {
                    push_viol(&mut out, path, ViolationKind::ArrayTooLong);
                }
            }
            if sch.unique_items {
                let ghost m = arr_model(xs@);
                let mut dup = false;
                let mut i: usize = 0;
                while i < n
                    invariant
                        i <= n,
                        n == xs@.len(),
                        m == arr_model(xs@),
                        m.len() == n,
                        forall|t: int| 0 <= t < n ==> m[t] == value_model(#[trigger] xs@[t]),
                        dup == exists|p: int, q: int|
                            0 <= p < q < n && p < i && m[p] == m[q],
                    decreases n - i,
                {
                    let mut j: usize = i + 1;
                    while j < n
                        invariant
                            i < j <= n,
                            i < n,
                            n == xs@.len(),
                            m == arr_model(xs@),
                            m.len() == n,
                            forall|t: int| 0 <= t < n ==> m[t] == value_model(#[trigger] xs@[t]),
                            dup == ((exists|p: int, q: int|
                                0 <= p < q < n && p < i && m[p] == m[q]) || (exists|q: int|
                                i < q < j && m[i as int] == m[q])),
                        decreases n - j,
                    {
                        if value_eq(&xs[i], &xs[j]) {
                            dup = true;
                        }
                        j += 1;
                    }
                    i += 1;
                }
                if dup {
                    push_viol(&mut out, path, ViolationKind::DuplicateItems);
                }
            }
            let ghost base = viols_model(out@);
            match &sch.items {
                Some(bx) => {
                    let cell: &ObjectOrReference<Schema> = &**bx;
                    let empty_vis: Vec<String> = Vec::new();
                    proof {
                        assert(visited_model(empty_vis@) =~= Seq::<Seq<char>>::empty());
                        assert(spec_items_upto(
                            *doc,
                            *cell,
                            v@,
                            0,
                            pm,
                            budget as nat,
                            fuel as nat,
                        ) =~= Seq::<ViolationModel>::empty());
                    }
                    let mut i: usize = 0;
                    while i < n
                        invariant
                            i <= n,
                            n == xs@.len(),
                            *v == Value::Arr(*xs),
                            sch.items matches Some(b) && *cell == *b,
                            pm == path_model(path@),
                            visited_model(empty_vis@) == Seq::<Seq<char>>::empty(),
                            viols_model(out@) == base + spec_items_upto(
                                *doc,
                                *cell,
                                v@,
                                i as int,
                                pm,
                                budget as nat,
                                fuel as nat,
                            ),
                        decreases n - i,
                    {
                        let child = child_path(path, PathSeg::Index(i));
                        proof {
                            lemma_arr_model(xs@);
                            assert(path_model(child@) == pm.push(
                                PathSegModel::Index(i as int),
                            ));
                            assert(decreases_to!(*v => v->Arr_0));
                            assert(v->Arr_0 == *xs);
                            assert(decreases_to!(*xs => xs@));
                            assert(decreases_to!(xs@ => xs@[i as int]));
                        }
                        let mut bv = check_cell(
                            doc,
                            cell,
                            &xs[i],
                            &child,
                            &empty_vis,
                            budget,
                            budget,
                        );
                        proof {
                            lemma_viols_model_add(out@, bv@);
                        }
                        out.append(&mut bv);
                        proof {
                            assert(viols_model(out@) =~= base + spec_items_upto(
                                *doc,
                                *cell,
                                v@,
                                i + 1 as int,
                                pm,
                                budget as nat,
                                fuel as nat,
                            ));
                        }
                        i += 1;
                    }
                    proof {
                        assert(viols_model(out@) =~= spec_array_viols(
                            *doc,
                            *sch,
                            v@,
                            pm,
                            budget as nat,
                            fuel as nat,
                        ));
                    }
                },
                None => {
                    proof {
                        assert(viols_model(out@) =~= spec_array_viols(
                            *doc,
                            *sch,
                            v@,
                            pm,
                            budget as nat,
                            fuel as nat,
                        ));
                    }
                },
            }
        },
        _ => {
            proof {
                assert(viols_model(out@) =~= spec_array_viols(
                    *doc,
                    *sch,
                    v@,
                    pm,
                    budget as nat,
                    fuel as nat,
                ));
            }
        },
    }
    out
}

/// The object constraint checks of [`spec_object_viols`], executed.
fn object_section(
    doc: &Document,
    sch: &Schema,
    v: &Value,
    path: &Vec<PathSeg>,
    budget: u32,
    fuel: u32,
) -> (r: Vec<Violation>)
    ensures
        viols_model(r@) == spec_object_viols(
            *doc,
            *sch,
            v@,
            path_model(path@),
            budget as nat,
            fuel as nat,
        ),
    decreases *v, fuel, *sch, spec_size_hint(v@) + 1,
{
    let ghost pm = path_model(path@);
    let mut out: Vec<Violation> = Vec::new();
    match v {
        Value::Obj(xs) => {
            proof {
                lemma_obj_model(xs@);
            }
            let ghost entries = obj_model(xs@);
            let nk = xs.len();
            let nr = sch.required.len();
            let mut i: usize = 0;
            while i < nr
                invariant
                    i <= nr,
                    nr == sch.required@.len(),
                    nk == xs@.len(),
                    entries == obj_model(xs@),
                    entries.len() == nk,
                    forall|t: int|
                        0 <= t < nk ==> entries[t] == (
                            (#[trigger] xs@[t]).0@,
                            value_model(xs@[t].1),
                        ),
                    pm == path_model(path@),
                    viols_model(out@) == spec_required_upto(sch.required@, entries, i as int, pm),
                decreases nr - i,
            {
                let mut found = false;
                let mut j: usize = 0;
                while j < nk
                    invariant
                        j <= nk,
                        i < nr,
                        nr == sch.required@.len(),
                        nk == xs@.len(),
                        entries == obj_model(xs@),
                        entries.len() == nk,
                        forall|t: int|
                            0 <= t < nk ==> entries[t] == (
                                (#[trigger] xs@[t]).0@,
                                value_model(xs@[t].1),
                            ),
                        found == exists|t: int|
                            0 <= t < j && entries[t].0 == sch.required@[i as int]@,
                    decreases nk - j,
                {
                    if xs[j].0 == sch.required[i] {
                        found = true;
                    }
                    j += 1;
                }
                proof {
                    assert(found == spec_obj_has_key(entries, sch.required@[i as int]@));
                }
                if !found {
                    push_viol(
                        &mut out,
                        path,
                        ViolationKind::MissingRequiredProperty { name: sch.required[i].clone() },
                    );
                }
                proof {
                    assert(viols_model(out@) =~= spec_required_upto(
                        sch.required@,
                        entries,
                        i + 1 as int,
                        pm,
                    ));
                }
                i += 1;
            }
            let ghost req_part = viols_model(out@);
            let empty_vis: Vec<String> = Vec::new();
            proof {
                assert(visited_model(empty_vis@) =~= Seq::<Seq<char>>::empty());
                assert(spec_entries_upto(
                    *doc,
                    *sch,
                    v@,
                    0,
                    pm,
                    budget as nat,
                    fuel as nat,
                ) =~= Seq::<ViolationModel>::empty());
                assert(viols_model(out@) =~= req_part + spec_entries_upto(
                    *doc,
                    *sch,
                    v@,
                    0,
                    pm,
                    budget as nat,
                    fuel as nat,
                ));
            }
            let mut i2: usize = 0;
            while i2 < nk
                invariant
                    i2 <= nk,
                    nk == xs@.len(),
                    *v == Value::Obj(*xs),
                    entries == obj_model(xs@),
                    entries.len() == nk,
                    forall|t: int|
                        0 <= t < nk ==> entries[t] == (
                            (#[trigger] xs@[t]).0@,
                            value_model(xs@[t].1),
                        ),
                    pm == path_model(path@),
                    visited_model(empty_vis@) == Seq::<Seq<char>>::empty(),
                    viols_model(out@) == req_part + spec_entries_upto(
                        *doc,
                        *sch,
                        v@,
                        i2 as int,
                        pm,
                        budget as nat,
                        fuel as nat,
                    ),
                decreases nk - i2,
            {
                let key_seg = PathSeg::Key(xs[i2].0.clone());
                proof {
                    assert(key_seg@ == PathSegModel::Key(xs@[i2 as int].0@));
                }
                let child = child_path(path, key_seg);
                proof {
                    assert(path_model(child@) == pm.push(PathSegModel::Key(xs@[i2 as int].0@)));
                    assert(decreases_to!(*v => v->Obj_0));
                    assert(v->Obj_0 == *xs);
                    assert(decreases_to!(*xs => xs@));
                    assert(decreases_to!(xs@ => xs@[i2 as int]));
                    assert(decreases_to!(xs@[i2 as int] => xs@[i2 as int].1));
                }
                match lookup(&sch.properties, xs[i2].0.as_str()) {
                    Some(cell) => {
                        let mut bv = check_cell(
                            doc,
                            cell,
                            &xs[i2].1,
                            &child,
                            &empty_vis,
                            budget,
                            budget,
                        );
                        proof {
                            lemma_viols_model_add(out@, bv@);
                        }
                        out.append(&mut bv);
                    },
                    None => {
                        match &sch.additional_properties {
                            AdditionalProperties::Unconstrained => {},
                            AdditionalProperties::Forbidden => {
                                push_viol(
                                    &mut out,
                                    &child,
                                    ViolationKind::UnexpectedProperty {
                                        name: xs[i2].0.clone(),
                                    },
                                );
                            },
                            AdditionalProperties::Constrained(bx) => {
                                let mut bv = check_cell(
                                    doc,
                                    &**bx,
                                    &xs[i2].1,
                                    &child,
                                    &empty_vis,
                                    budget,
                                    budget,
                                );
                                proof {
                                    lemma_viols_model_add(out@, bv@);
                                }
                                out.append(&mut bv);
                            },
                        }
                    },
                }
                proof {
                    assert(viols_model(out@) =~= req_part + spec_entries_upto(
                        *doc,
                        *sch,
                        v@,
                        i2 + 1 as int,
                        pm,
                        budget as nat,
                        fuel as nat,
                    ));
                }
                i2 += 1;
            }
            proof {
                assert(viols_model(out@) =~= spec_object_viols(
                    *doc,
                    *sch,
                    v@,
                    pm,
                    budget as nat,
                    fuel as nat,
                ));
            }
        },
        _ => {
            proof {
                assert(viols_model(out@) =~= spec_object_viols(
                    *doc,
                    *sch,
                    v@,
                    pm,
                    budget as nat,
                    fuel as nat,
                ));
            }
        },
    }
    out
}

/// The `allOf` check of [`spec_all_of_viols`], executed.
fn all_of_part(
    doc: &Document,
    sch: &Schema,
    v: &Value,
    path: &Vec<PathSeg>,
    visited: &Vec<String>,
    budget: u32,
    fuel: u32,
) -> (r: Vec<Violation>)
    ensures
        viols_model(r@) == spec_all_of_viols(
            *doc,
            *sch,
            v@,
            path_model(path@),
            visited_model(visited@),
            budget as nat,
            fuel as nat,
        ),
    decreases *v, fuel, *sch, 1int,
{
    let ghost pm = path_model(path@);
    let ghost vm = visited_model(visited@);
    let mut out: Vec<Violation> = Vec::new();
    let na = sch.all_of.len();
    let mut i: usize = 0;
    proof {
        assert(spec_all_of_upto(
            *doc,
            sch.all_of@,
            v@,
            0,
            pm,
            vm,
            budget as nat,
            fuel as nat,
        ) =~= Seq::<ViolationModel>::empty());
    }
    while i < na
        invariant
            i <= na,
            na == sch.all_of@.len(),
            viols_model(out@) == spec_all_of_upto(
                *doc,
                sch.all_of@,
                v@,
                i as int,
                pm,
                vm,
                budget as nat,
                fuel as nat,
            ),
            pm == path_model(path@),
            vm == visited_model(visited@),
        decreases na - i,
    {
        proof {
            assert(decreases_to!(*sch => sch.all_of));
            assert(decreases_to!(sch.all_of => sch.all_of@));
            assert(decreases_to!(sch.all_of@ => sch.all_of@[i as int]));
        }
        let mut bv = check_cell(doc, &sch.all_of[i], v, path, visited, budget, fuel);
        proof {
            lemma_viols_model_add(out@, bv@);
        }
        out.append(&mut bv);
        proof {
            assert(viols_model(out@) =~= spec_all_of_upto(
                *doc,
                sch.all_of@,
                v@,
                i + 1 as int,
                pm,
                vm,
                budget as nat,
                fuel as nat,
            ));
        }
        i += 1;
    }
    out
}

/// The `anyOf` check of [`spec_any_of_viols`], executed.
fn any_of_part(
    doc: &Document,
    sch: &Schema,
    v: &Value,
    path: &Vec<PathSeg>,
    visited: &Vec<String>,
    budget: u32,
    fuel: u32,
) -> (r: Vec<Violation>)
    ensures
        viols_model(r@) == spec_any_of_viols(
            *doc,
            *sch,
            v@,
            path_model(path@),
            visited_model(visited@),
            budget as nat,
            fuel as nat,
        ),
    decreases *v, fuel, *sch, 1int,
{
    let ghost pm = path_model(path@);
    let ghost vm = visited_model(visited@);
    let nany = sch.any_of.len();
    if nany == 0 {
        let out: Vec<Violation> = Vec::new();
        proof {
            assert(viols_model(out@) =~= Seq::<ViolationModel>::empty());
        }
        return out;
    }
    let mut passed = false;
    let mut reps: Vec<Violation> = Vec::new();
    let mut i2: usize = 0;
    proof {
        assert(spec_reps_upto(
            *doc,
            sch.any_of@,
            v@,
            0,
            pm,
            vm,
            budget as nat,
            fuel as nat,
        ) =~= Seq::<ViolationModel>::empty());
    }
    while i2 < nany
        invariant
            i2 <= nany,
            nany == sch.any_of@.len(),
            nany > 0,
            passed == spec_some_branch_passes(
                *doc,
                sch.any_of@,
                v@,
                i2 as int,
                pm,
                vm,
                budget as nat,
                fuel as nat,
            ),
            viols_model(reps@) == spec_reps_upto(
                *doc,
                sch.any_of@,
                v@,
                i2 as int,
                pm,
                vm,
                budget as nat,
                fuel as nat,
            ),
            pm == path_model(path@),
            vm == visited_model(visited@),
        decreases nany - i2,
    {
        proof {
            assert(decreases_to!(*sch => sch.any_of));
            assert(decreases_to!(sch.any_of => sch.any_of@));
            assert(decreases_to!(sch.any_of@ => sch.any_of@[i2 as int]));
        }
        let mut bv = check_cell(doc, &sch.any_of[i2], v, path, visited, budget, fuel);
        let ghost bvm = viols_model(bv@);
        proof {
            assert(bvm == spec_check_cell(
                *doc,
                sch.any_of@[i2 as int],
                v@,
                pm,
                vm,
                budget as nat,
                fuel as nat,
            ));
            assert(bv@.len() == bvm.len());
        }
        if bv.len() == 0 {
            passed = true;
        } else {
            let first = bv.remove(0);
            proof {
                assert(first@ == bvm[0]);
            }
            reps.push(first);
        }
        proof {
            assert(spec_branch_passes(
                *doc,
                sch.any_of@[i2 as int],
                v@,
                pm,
                vm,
                budget as nat,
                fuel as nat,
            ) == (bvm.len() == 0));
            assert(passed == spec_some_branch_passes(
                *doc,
                sch.any_of@,
                v@,
                i2 + 1 as int,
                pm,
                vm,
                budget as nat,
                fuel as nat,
            ));
            assert(viols_model(reps@) =~= spec_reps_upto(
                *doc,
                sch.any_of@,
                v@,
                i2 + 1 as int,
                pm,
                vm,
                budget as nat,
                fuel as nat,
            ));
        }
        i2 += 1;
    }
    if !passed {
        reps
    } else {
        let out: Vec<Violation> = Vec::new();
        proof {
            assert(viols_model(out@) =~= Seq::<ViolationModel>::empty());
        }
        out
    }
}

/// The `oneOf` check of [`spec_one_of_viols`], executed.
fn one_of_part(
    doc: &Document,
    sch: &Schema,
    v: &Value,
    path: &Vec<PathSeg>,
    visited: &Vec<String>,
    budget: u32,
    fuel: u32,
) -> (r: Vec<Violation>)
    ensures
        viols_model(r@) == spec_one_of_viols(
            *doc,
            *sch,
            v@,
            path_model(path@),
            visited_model(visited@),
            budget as nat,
            fuel as nat,
        ),
    decreases *v, fuel, *sch, 1int,
{
    let ghost pm = path_model(path@);
    let ghost vm = visited_model(visited@);
    let mut out: Vec<Violation> = Vec::new();
    let none_count = sch.one_of.len();
    if none_count == 0 {
        proof {
            assert(viols_model(out@) =~= Seq::<ViolationModel>::empty());
        }
        return out;
    }
    let mut c: usize = 0;
    let mut i3: usize = 0;
    while i3 < none_count
        invariant
            i3 <= none_count,
            c <= i3,
            none_count == sch.one_of@.len(),
            c as int == spec_count_passing(
                *doc,
                sch.one_of@,
                v@,
                i3 as int,
                pm,
                vm,
                budget as nat,
                fuel as nat,
            ),
            pm == path_model(path@),
            vm == visited_model(visited@),
        decreases none_count - i3,
    {
        proof {
            assert(decreases_to!(*sch => sch.one_of));
            assert(decreases_to!(sch.one_of => sch.one_of@));
            assert(decreases_to!(sch.one_of@ => sch.one_of@[i3 as int]));
        }
        let bv = check_cell(doc, &sch.one_of[i3], v, path, visited, budget, fuel);
        let ghost bvm = viols_model(bv@);
        proof {
            assert(bvm == spec_check_cell(
                *doc,
                sch.one_of@[i3 as int],
                v@,
                pm,
                vm,
                budget as nat,
                fuel as nat,
            ));
            assert(bv@.len() == bvm.len());
        }
        if bv.len() == 0 {
            c += 1;
        }
        proof {
            assert(spec_branch_passes(
                *doc,
                sch.one_of@[i3 as int],
                v@,
                pm,
                vm,
                budget as nat,
                fuel as nat,
            ) == (bvm.len() == 0));
            assert(spec_count_passing(
                *doc,
                sch.one_of@,
                v@,
                i3 + 1 as int,
                pm,
                vm,
                budget as nat,
                fuel as nat,
            ) == spec_count_passing(
                *doc,
                sch.one_of@,
                v@,
                i3 as int,
                pm,
                vm,
                budget as nat,
                fuel as nat,
            ) + (if spec_branch_passes(
                *doc,
                sch.one_of@[i3 as int],
                v@,
                pm,
                vm,
                budget as nat,
                fuel as nat,
            ) {
                1int
            } else {
                0int
            }));
            assert(c as int == spec_count_passing(
                *doc,
                sch.one_of@,
                v@,
                i3 + 1 as int,
                pm,
                vm,
                budget as nat,
                fuel as nat,
            ));
        }
        i3 += 1;
    }
    if c == 0 {
        push_viol(&mut out, path, ViolationKind::NoMatchingBranch);
    } else if c >= 2 {
        push_viol(&mut out, path, ViolationKind::MultipleMatchingBranches);
    }
    proof {
        assert(viols_model(out@) =~= spec_one_of_viols(
            *doc,
            *sch,
            v@,
            pm,
            vm,
            budget as nat,
            fuel as nat,
        ));
    }
    out
}

/// The `not` check of [`spec_not_viols`], executed.
fn not_part(
    doc: &Document,
    sch: &Schema,
    v: &Value,
    path: &Vec<PathSeg>,
    visited: &Vec<String>,
    budget: u32,
    fuel: u32,
) -> (r: Vec<Violation>)
    ensures
        viols_model(r@) == spec_not_viols(
            *doc,
            *sch,
            v@,
            path_model(path@),
            visited_model(visited@),
            budget as nat,
            fuel as nat,
        ),
    decreases *v, fuel, *sch, 1int,
{
    let mut out: Vec<Violation> = Vec::new();
    match &sch.not_schema {
        Some(bx) => {
            proof {
                assert(decreases_to!(*sch => sch.not_schema));
                assert(decreases_to!(sch.not_schema => sch.not_schema->0));
            }
            let bv = check_cell(doc, &**bx, v, path, visited, budget, fuel);
            if bv.len() == 0 {
                push_viol(&mut out, path, ViolationKind::DisallowedByNot);
            }
        },
        None => {},
    }
    proof {
        assert(viols_model(out@) =~= spec_not_viols(
            *doc,
            *sch,
            v@,
            path_model(path@),
            visited_model(visited@),
            budget as nat,
            fuel as nat,
        ));
    }
    out
}

/// Every check of [`spec_check_schema`], executed in the same order.
fn check_schema(
    doc: &Document,
    sch: &Schema,
    v: &Value,
    path: &Vec<PathSeg>,
    visited: &Vec<String>,
    budget: u32,
    fuel: u32,
) -> (r: Vec<Violation>)
    ensures
        viols_model(r@) == spec_check_schema(
            *doc,
            *sch,
            v@,
            path_model(path@),
            visited_model(visited@),
            budget as nat,
            fuel as nat,
        ),
    decreases *v, fuel, *sch, spec_size_hint(v@) + 2,
{
    let mut out = type_section(sch, v, path);
    let mut part = enum_section(sch, v, path);
    proof {
        lemma_viols_model_add(out@, part@);
    }
    out.append(&mut part);
    let mut part = number_section(sch, v, path);
    proof {
        lemma_viols_model_add(out@, part@);
    }
    out.append(&mut part);
    let mut part = string_section(sch, v, path);
    proof {
        lemma_viols_model_add(out@, part@);
    }
    out.append(&mut part);
    let mut part = array_section(doc, sch, v, path, budget, fuel);
    proof {
        lemma_viols_model_add(out@, part@);
    }
    out.append(&mut part);
    let mut part = object_section(doc, sch, v, path, budget, fuel);
    proof {
        lemma_viols_model_add(out@, part@);
    }
    out.append(&mut part);
    let mut part = all_of_part(doc, sch, v, path, visited, budget, fuel);
    proof {
        lemma_viols_model_add(out@, part@);
    }
    out.append(&mut part);
    let mut part = any_of_part(doc, sch, v, path, visited, budget, fuel);
    proof {
        lemma_viols_model_add(out@, part@);
    }
    out.append(&mut part);
    let mut part = one_of_part(doc, sch, v, path, visited, budget, fuel);
    proof {
        lemma_viols_model_add(out@, part@);
    }
    out.append(&mut part);
    let mut part = not_part(doc, sch, v, path, visited, budget, fuel);
    proof {
        lemma_viols_model_add(out@, part@);
    }
    out.append(&mut part);
    proof {
        assert(viols_model(out@) =~= spec_check_schema(
            *doc,
            *sch,
            v@,
            path_model(path@),
            visited_model(visited@),
            budget as nat,
            fuel as nat,
        ));
    }
    out
}

/// One cell of the walk, as [`spec_check_cell`] describes it,
/// executed.
fn check_cell(
    doc: &Document,
    cell: &ObjectOrReference<Schema>,
    v: &Value,
    path: &Vec<PathSeg>,
    visited: &Vec<String>,
    budget: u32,
    fuel: u32,
) -> (r: Vec<Violation>)
    ensures
        viols_model(r@) == spec_check_cell(
            *doc,
            *cell,
            v@,
            path_model(path@),
            visited_model(visited@),
            budget as nat,
            fuel as nat,
        ),
    decreases *v, fuel, *cell, 0int,
{
    match cell {
        ObjectOrReference::Object(s) => {
            proof {
                assert(decreases_to!(*cell => cell->Object_0));
                assert(cell->Object_0 == *s);
            }
            check_schema(doc, s, v, path, visited, budget, fuel)
        },
        ObjectOrReference::Ref { ref_path } => {
            match resolve_schema(cell, doc) {
                Err(_) => {
                    let mut out: Vec<Violation> = Vec::new();
                    push_viol(&mut out, path, ViolationKind::UnresolvableSchema);
                    proof {
                        assert(viols_model(out@) =~= one_viol(
                            path_model(path@),
                            ViolationKindModel::UnresolvableSchema,
                        ));
                    }
                    out
                },
                Ok(s) => {
                    if contains_string(visited, ref_path.as_str()) {
                        let mut out: Vec<Violation> = Vec::new();
                        push_viol(&mut out, path, ViolationKind::CyclicSchema);
                        out
                    } else if fuel == 0 {
                        let mut out: Vec<Violation> = Vec::new();
                        push_viol(&mut out, path, ViolationKind::CyclicSchema);
                        out
                    } else {
                        let next_visited = push_visited(visited, ref_path);
                        check_schema(doc, s, v, path, &next_visited, budget, fuel - 1)
                    }
                },
            }
        },
    }
}

/// The hop budget that [`validate_value`] allows each chain of
/// reference hops.
pub const DEFAULT_MAX_DEPTH: u32 = 64;

/// Validates `value` against `schema` within `doc`, with `depth` as
/// the bound on consecutive reference hops. The outcome lists every
/// violation that [`spec_validate`] assigns to the value, in order,
/// and is `Valid` exactly when that list is empty.
pub fn validate_value_with_depth(
    value: &Value,
    schema: &Schema,
    doc: &Document,
    depth: u32,
) -> (r: ValidationOutcome)
    ensures
        r@ == spec_validate(*doc, *schema, value@, depth as nat),
        r is Valid <==> spec_validate(*doc, *schema, value@, depth as nat).len() == 0,
{
    let path: Vec<PathSeg> = Vec::new();
    let visited: Vec<String> = Vec::new();
    proof {
        assert(path_model(path@) =~= Seq::<PathSegModel>::empty());
        assert(visited_model(visited@) =~= Seq::<Seq<char>>::empty());
    }
    let out = check_schema(doc, schema, value, &path, &visited, depth, depth);
    if out.len() == 0 {
        proof {
            assert(viols_model(out@).len() == 0);
        }
        ValidationOutcome::Valid
    } else {
        proof {
            assert(viols_model(out@).len() > 0);
        }
        ValidationOutcome::Invalid(out)
    }
}

/// Validates `value` against `schema` within `doc` with the default
/// hop budget.
pub fn validate_value(value: &Value, schema: &Schema, doc: &Document) -> (r: ValidationOutcome)
    ensures
        r@ == spec_validate(*doc, *schema, value@, DEFAULT_MAX_DEPTH as nat),
        r is Valid <==> spec_validate(*doc, *schema, value@, DEFAULT_MAX_DEPTH as nat).len()
            == 0,
{
    validate_value_with_depth(value, schema, doc, DEFAULT_MAX_DEPTH)
}

} // verus!
