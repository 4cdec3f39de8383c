//! General properties of the validator, stated and proved over the
//! same spec functions that its contracts use.

use vstd::prelude::*;

use crate::document::Document;
use crate::schema::AdditionalProperties;
use crate::schema::ObjectOrReference;
use crate::schema::Schema;
use crate::validate::one_viol;
use crate::validate::spec_all_of_upto;
use crate::validate::spec_branch_passes;
use crate::validate::spec_check_cell;
use crate::validate::spec_count_passing;
use crate::validate::spec_check_schema;
use crate::validate::spec_comp_viols;
use crate::validate::spec_entries_upto;
use crate::validate::spec_size_hint;
use crate::validate::spec_validate;
use crate::validate::PathSegModel;
use crate::validate::ValidationOutcome;
use crate::validate::ViolationKindModel;
use crate::validate::ViolationModel;
use crate::value::ValueModel;

verus! {

/// Validating the same value against the same schema twice yields the
/// same outcome: the outcome is a function of the document, schema,
/// value and depth alone, as the contract of `validate_value` pins it.
pub proof fn lemma_validation_idempotent(
    o1: ValidationOutcome,
    o2: ValidationOutcome,
    doc: Document,
    sch: Schema,
    v: ValueModel,
    depth: nat,
)
    requires
        o1@ == spec_validate(doc, sch, v, depth),
        o2@ == spec_validate(doc, sch, v, depth),
    ensures
        o1@ == o2@,
{
}

/// A schema whose only active keywords are the composition lists:
/// every scalar, string, numeric, array and object keyword is absent.
pub open spec fn spec_composition_only(sch: Schema) -> bool {
    &&& sch.schema_types@.len() == 0
    &&& sch.enum_values@.len() == 0
    &&& sch.const_value is None
    &&& sch.minimum is None
    &&& sch.maximum is None
    &&& sch.exclusive_minimum is None
    &&& sch.exclusive_maximum is None
    &&& sch.multiple_of is None
    &&& sch.min_length is None
    &&& sch.max_length is None
    &&& sch.pattern is None
    &&& sch.format is None
    &&& sch.min_items is None
    &&& sch.max_items is None
    &&& !sch.unique_items
    &&& sch.items is None
    &&& sch.properties@.len() == 0
    &&& sch.additional_properties is Unconstrained
    &&& sch.required@.len() == 0
}

proof fn lemma_entries_upto_unconstrained(
    doc: Document,
    sch: Schema,
    obj: ValueModel,
    i: int,
    path: Seq<PathSegModel>,
    budget: nat,
    fuel: nat,
)
    requires
        sch.properties@.len() == 0,
        sch.additional_properties is Unconstrained,
    ensures
        spec_entries_upto(doc, sch, obj, i, path, budget, fuel) == Seq::<ViolationModel>::empty(),
    decreases i,
{
    match obj {
        ValueModel::Obj(entries) => {
            if 0 < i <= entries.len() {
                lemma_entries_upto_unconstrained(doc, sch, obj, i - 1, path, budget, fuel);
                assert(spec_entries_upto(doc, sch, obj, i, path, budget, fuel)
                    =~= Seq::<ViolationModel>::empty());
            }
        },
        _ => {},
    }
}

/// On a composition-only schema, every check but the composition
/// section is vacuous.
proof fn lemma_composition_only_sections(
    doc: Document,
    sch: Schema,
    v: ValueModel,
    path: Seq<PathSegModel>,
    visited: Seq<Seq<char>>,
    budget: nat,
    fuel: nat,
)
    requires
        spec_composition_only(sch),
    ensures
        spec_check_schema(doc, sch, v, path, visited, budget, fuel) == spec_comp_viols(
            doc,
            sch,
            v,
            path,
            visited,
            budget,
            fuel,
        ),
{
    lemma_entries_upto_unconstrained(doc, sch, v, spec_size_hint(v), path, budget, fuel);
    assert(spec_check_schema(doc, sch, v, path, visited, budget, fuel) =~= spec_comp_viols(
        doc,
        sch,
        v,
        path,
        visited,
        budget,
        fuel,
    ));
}

/// An `allOf` of two inline branches collects exactly the union of the
/// two branches' violations, in branch order: validating against
/// `allOf: [A, B]` is validating against `A` and against `B` and
/// concatenating what each reports.
pub proof fn lemma_all_of_is_union(
    doc: Document,
    sch: Schema,
    a: Schema,
    b: Schema,
    v: ValueModel,
    depth: nat,
)
    requires
        spec_composition_only(sch),
        sch.any_of@.len() == 0,
        sch.one_of@.len() == 0,
        sch.not_schema is None,
        sch.all_of@ == seq![
            ObjectOrReference::Object(a),
            ObjectOrReference::<Schema>::Object(b),
        ],
    ensures
        spec_validate(doc, sch, v, depth) == spec_validate(doc, a, v, depth) + spec_validate(
            doc,
            b,
            v,
            depth,
        ),
{
    let path = Seq::<PathSegModel>::empty();
    let visited = Seq::<Seq<char>>::empty();
    lemma_composition_only_sections(doc, sch, v, path, visited, depth, depth);
    assert(sch.all_of@[0] == ObjectOrReference::Object(a));
    assert(sch.all_of@[1] == ObjectOrReference::<Schema>::Object(b));
    assert(spec_check_cell(doc, sch.all_of@[0], v, path, visited, depth, depth)
        == spec_validate(doc, a, v, depth));
    assert(spec_check_cell(doc, sch.all_of@[1], v, path, visited, depth, depth)
        == spec_validate(doc, b, v, depth));
    let branches = sch.all_of@;
    assert(spec_all_of_upto(doc, branches, v, 0, path, visited, depth, depth)
        == Seq::<ViolationModel>::empty());
    assert(spec_all_of_upto(doc, branches, v, 1, path, visited, depth, depth) =~= spec_validate(
        doc,
        a,
        v,
        depth,
    ));
    assert(spec_all_of_upto(doc, branches, v, 2, path, visited, depth, depth) =~= spec_validate(
        doc,
        a,
        v,
        depth,
    ) + spec_validate(doc, b, v, depth));
    assert(spec_comp_viols(doc, sch, v, path, visited, depth, depth) =~= spec_validate(
        doc,
        a,
        v,
        depth,
    ) + spec_validate(doc, b, v, depth));
}

/// A `oneOf` of two inline branches that both accept the value
/// reports exactly `MultipleMatchingBranches`.
pub proof fn lemma_one_of_multiple_matches(
    doc: Document,
    sch: Schema,
    a: Schema,
    b: Schema,
    v: ValueModel,
    depth: nat,
)
    requires
        spec_composition_only(sch),
        sch.all_of@.len() == 0,
        sch.any_of@.len() == 0,
        sch.not_schema is None,
        sch.one_of@ == seq![
            ObjectOrReference::Object(a),
            ObjectOrReference::<Schema>::Object(b),
        ],
        spec_validate(doc, a, v, depth).len() == 0,
        spec_validate(doc, b, v, depth).len() == 0,
    ensures
        spec_validate(doc, sch, v, depth) == one_viol(
            Seq::<PathSegModel>::empty(),
            ViolationKindModel::MultipleMatchingBranches,
        ),
{
    let path = Seq::<PathSegModel>::empty();
    let visited = Seq::<Seq<char>>::empty();
    lemma_composition_only_sections(doc, sch, v, path, visited, depth, depth);
    assert(sch.one_of@[0] == ObjectOrReference::Object(a));
    assert(sch.one_of@[1] == ObjectOrReference::<Schema>::Object(b));
    assert(spec_check_cell(doc, sch.one_of@[0], v, path, visited, depth, depth)
        == spec_validate(doc, a, v, depth));
    assert(spec_check_cell(doc, sch.one_of@[1], v, path, visited, depth, depth)
        == spec_validate(doc, b, v, depth));
    let branches = sch.one_of@;
    assert(spec_branch_passes(doc, branches[0], v, path, visited, depth, depth)
        == (spec_validate(doc, a, v, depth).len() == 0));
    assert(spec_branch_passes(doc, branches[1], v, path, visited, depth, depth)
        == (spec_validate(doc, b, v, depth).len() == 0));
    assert(spec_count_passing(doc, branches, v, 0, path, visited, depth, depth) == 0);
    assert(spec_count_passing(doc, branches, v, 1, path, visited, depth, depth)
        == spec_count_passing(doc, branches, v, 0, path, visited, depth, depth) + (
        if spec_branch_passes(doc, branches[0], v, path, visited, depth, depth) {
            1int
        } else {
            0int
        }));
    assert(spec_count_passing(doc, branches, v, 2, path, visited, depth, depth)
        == spec_count_passing(doc, branches, v, 1, path, visited, depth, depth) + (
        if spec_branch_passes(doc, branches[1], v, path, visited, depth, depth) {
            1int
        } else {
            0int
        }));
    assert(spec_all_of_upto(doc, sch.all_of@, v, 0, path, visited, depth, depth)
        == Seq::<ViolationModel>::empty());
    assert(spec_comp_viols(doc, sch, v, path, visited, depth, depth) =~= one_viol(
        path,
        ViolationKindModel::MultipleMatchingBranches,
    ));
}

/// A `oneOf` of two inline branches that both reject the value
/// reports exactly `NoMatchingBranch`.
pub proof fn lemma_one_of_no_match(
    doc: Document,
    sch: Schema,
    a: Schema,
    b: Schema,
    v: ValueModel,
    depth: nat,
)
    requires
        spec_composition_only(sch),
        sch.all_of@.len() == 0,
        sch.any_of@.len() == 0,
        sch.not_schema is None,
        sch.one_of@ == seq![
            ObjectOrReference::Object(a),
            ObjectOrReference::<Schema>::Object(b),
        ],
        spec_validate(doc, a, v, depth).len() > 0,
        spec_validate(doc, b, v, depth).len() > 0,
    ensures
        spec_validate(doc, sch, v, depth) == one_viol(
            Seq::<PathSegModel>::empty(),
            ViolationKindModel::NoMatchingBranch,
        ),
{
    let path = Seq::<PathSegModel>::empty();
    let visited = Seq::<Seq<char>>::empty();
    lemma_composition_only_sections(doc, sch, v, path, visited, depth, depth);
    assert(sch.one_of@[0] == ObjectOrReference::Object(a));
    assert(sch.one_of@[1] == ObjectOrReference::<Schema>::Object(b));
    assert(spec_check_cell(doc, sch.one_of@[0], v, path, visited, depth, depth)
        == spec_validate(doc, a, v, depth));
    assert(spec_check_cell(doc, sch.one_of@[1], v, path, visited, depth, depth)
        == spec_validate(doc, b, v, depth));
    let branches = sch.one_of@;
    assert(spec_branch_passes(doc, branches[0], v, path, visited, depth, depth)
        == (spec_validate(doc, a, v, depth).len() == 0));
    assert(spec_branch_passes(doc, branches[1], v, path, visited, depth, depth)
        == (spec_validate(doc, b, v, depth).len() == 0));
    assert(spec_count_passing(doc, branches, v, 0, path, visited, depth, depth) == 0);
    assert(spec_count_passing(doc, branches, v, 1, path, visited, depth, depth)
        == spec_count_passing(doc, branches, v, 0, path, visited, depth, depth) + (
        if spec_branch_passes(doc, branches[0], v, path, visited, depth, depth) {
            1int
        } else {
            0int
        }));
    assert(spec_count_passing(doc, branches, v, 2, path, visited, depth, depth)
        == spec_count_passing(doc, branches, v, 1, path, visited, depth, depth) + (
        if spec_branch_passes(doc, branches[1], v, path, visited, depth, depth) {
            1int
        } else {
            0int
        }));
    assert(spec_all_of_upto(doc, sch.all_of@, v, 0, path, visited, depth, depth)
        == Seq::<ViolationModel>::empty());
    assert(spec_comp_viols(doc, sch, v, path, visited, depth, depth) =~= one_viol(
        path,
        ViolationKindModel::NoMatchingBranch,
    ));
}

} // verus!
