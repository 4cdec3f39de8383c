//! The structured values that the validator checks: the JSON data model
//! with numbers restricted to signed 64-bit integers.

use vstd::prelude::*;

verus! {

/// A JSON data kind, as named by a schema's `type` keyword.
#[derive(Clone, Copy, Debug, PartialEq, Eq, Structural)]
pub enum SchemaType {
    Null,
    Boolean,
    Integer,
    Number,
    String,
    Array,
    Object,
}

/// A structured data value: `null`, a boolean, an integer, a string,
/// an array, or an object whose entries keep their order.
#[derive(Debug, PartialEq)]
pub enum Value {
    Null,
    Bool(bool),
    Int(i64),
    Str(String),
    Arr(Vec<Value>),
    Obj(Vec<(String, Value)>),
}

/// The mathematical shape of a [`Value`]: sequences and unbounded
/// integers in place of vectors and machine words.
pub enum ValueModel {
    Null,
    Bool(bool),
    Int(int),
    Str(Seq<char>),
    Arr(Seq<ValueModel>),
    Obj(Seq<(Seq<char>, ValueModel)>),
}

/// The abstraction of a value: each node replaced by its model.
pub open spec fn value_model(v: Value) -> ValueModel
    decreases v,
    via value_model_decreases
{
    match v {
        Value::Null => ValueModel::Null,
        Value::Bool(b) => ValueModel::Bool(b),
        Value::Int(n) => ValueModel::Int(n as int),
        Value::Str(s) => ValueModel::Str(s@),
        Value::Arr(items) => ValueModel::Arr(arr_model(items@)),
        Value::Obj(entries) => ValueModel::Obj(obj_model(entries@)),
    }
}

/// The models of a sequence of values, element by element.
pub open spec fn arr_model(items: Seq<Value>) -> Seq<ValueModel>
    decreases items,
{
    if items.len() == 0 {
        Seq::empty()
    } else {
        arr_model(items.subrange(0, items.len() - 1)).push(
            value_model(items[items.len() - 1]),
        )
    }
}

/// The models of a sequence of keyed entries, element by element.
pub open spec fn obj_model(entries: Seq<(String, Value)>) -> Seq<(Seq<char>, ValueModel)>
    decreases entries,
    via obj_model_decreases
{
    if entries.len() == 0 {
        Seq::empty()
    } else {
        obj_model(entries.subrange(0, entries.len() - 1)).push(
            (entries[entries.len() - 1].0@, value_model(entries[entries.len() - 1].1)),
        )
    }
}

#[via_fn]
proof fn value_model_decreases(v: Value) {
    match v {
        Value::Arr(items) => {
            assert(decreases_to!(v => items));
            assert(decreases_to!(items => items@));
        },
        Value::Obj(entries) => {
            assert(decreases_to!(v => entries));
            assert(decreases_to!(entries => entries@));
        },
        _ => {},
    }
}

#[via_fn]
proof fn obj_model_decreases(entries: Seq<(String, Value)>) {
    if entries.len() > 0 {
        let last = entries[entries.len() - 1];
        assert(decreases_to!(entries => last));
        assert(decreases_to!(last => last.1));
    }
}

/// `arr_model` maps the sequence pointwise.
pub proof fn lemma_arr_model(items: Seq<Value>)
    ensures
        arr_model(items).len() == items.len(),
        forall|i: int|
            0 <= i < items.len() ==> arr_model(items)[i] == value_model(#[trigger] items[i]),
    decreases items.len(),
{
    if items.len() > 0 {
        lemma_arr_model(items.subrange(0, items.len() - 1));
        assert forall|i: int|
            0 <= i < items.len() implies arr_model(items)[i] == value_model(
            #[trigger] items[i],
        ) by {
            if i < items.len() - 1 {
                assert(items.subrange(0, items.len() - 1)[i] == items[i]);
            }
        }
    }
}

/// `obj_model` maps the sequence pointwise.
pub proof fn lemma_obj_model(entries: Seq<(String, Value)>)
    ensures
        obj_model(entries).len() == entries.len(),
        forall|i: int|
            0 <= i < entries.len() ==> obj_model(entries)[i] == (
                (#[trigger] entries[i]).0@,
                value_model(entries[i].1),
            ),
    decreases entries.len(),
{
    if entries.len() > 0 {
        lemma_obj_model(entries.subrange(0, entries.len() - 1));
        assert forall|i: int|
            0 <= i < entries.len() implies obj_model(entries)[i] == (
            (#[trigger] entries[i]).0@,
            value_model(entries[i].1),
        ) by {
            if i < entries.len() - 1 {
                assert(entries.subrange(0, entries.len() - 1)[i] == entries[i]);
            }
        }
    }
}

impl View for Value {
    type V = ValueModel;

    open spec fn view(&self) -> ValueModel {
        value_model(*self)
    }
}

/// Decides deep equality of two values: true exactly when their models
/// are equal. Two objects are equal only when they hold the same keys
/// in the same order with equal values.
pub fn value_eq(a: &Value, b: &Value) -> (r: bool)
    ensures
        r == (a@ == b@),
    decreases *a,
{
    match (a, b) {
        (Value::Null, Value::Null) => true,
        (Value::Bool(x), Value::Bool(y)) => x == y,
        (Value::Int(x), Value::Int(y)) => x == y,
        (Value::Str(x), Value::Str(y)) => *x == *y,
        (Value::Arr(xs), Value::Arr(ys)) => {
            proof {
                lemma_arr_model(xs@);
                lemma_arr_model(ys@);
            }
            if xs.len() != ys.len() {
                return false;
            }
            let n = xs.len();
            let mut i: usize = 0;
            while i < n
                invariant
                    i <= n,
                    n == xs@.len() == ys@.len(),
                    *a == Value::Arr(*xs),
                    *b == Value::Arr(*ys),
                    arr_model(xs@).len() == n,
                    arr_model(ys@).len() == n,
                    forall|j: int| 0 <= j < i ==> arr_model(xs@)[j] == arr_model(ys@)[j],
                decreases n - i,
            {
                proof {
                    lemma_arr_model(xs@);
                    lemma_arr_model(ys@);
                    assert(decreases_to!(*a => a->Arr_0));
                    assert(a->Arr_0 == *xs);
                    assert(decreases_to!(*xs => xs@));
                    assert(decreases_to!(xs@ => xs@[i as int]));
                }
                if !value_eq(&xs[i], &ys[i]) {
                    proof {
                        assert(arr_model(xs@)[i as int] != arr_model(ys@)[i as int]);
                    }
                    return false;
                }
                i += 1;
            }
            proof {
                assert(arr_model(xs@) =~= arr_model(ys@));
            }
            true
        },
        (Value::Obj(xs), Value::Obj(ys)) => {
            proof {
                lemma_obj_model(xs@);
                lemma_obj_model(ys@);
            }
            if xs.len() != ys.len() {
                return false;
            }
            let n = xs.len();
            let mut i: usize = 0;
            while i < n
                invariant
                    i <= n,
                    n == xs@.len() == ys@.len(),
                    *a == Value::Obj(*xs),
                    *b == Value::Obj(*ys),
                    obj_model(xs@).len() == n,
                    obj_model(ys@).len() == n,
                    forall|j: int| 0 <= j < i ==> obj_model(xs@)[j] == obj_model(ys@)[j],
                decreases n - i,
            {
                proof {
                    lemma_obj_model(xs@);
                    lemma_obj_model(ys@);
                }
                if !(xs[i].0 == ys[i].0) {
                    proof {
                        assert(obj_model(xs@)[i as int] != obj_model(ys@)[i as int]);
                    }
                    return false;
                }
                proof {
                    assert(decreases_to!(*a => a->Obj_0));
                    assert(a->Obj_0 == *xs);
                    assert(decreases_to!(*xs => xs@));
                    assert(decreases_to!(xs@ => xs@[i as int]));
                    assert(decreases_to!(xs@[i as int] => xs@[i as int].1));
                }
                if !value_eq(&xs[i].1, &ys[i].1) {
                    proof {
                        assert(obj_model(xs@)[i as int] != obj_model(ys@)[i as int]);
                    }
                    return false;
                }
                i += 1;
            }
            proof {
                assert(obj_model(xs@) =~= obj_model(ys@));
            }
            true
        },
        _ => {
            proof {
                assert(a@ != b@);
            }
            false
        },
    }
}

/// The runtime kind of a value; an integer value counts as `Integer`.
pub open spec fn spec_kind_of(v: ValueModel) -> SchemaType {
    match v {
        ValueModel::Null => SchemaType::Null,
        ValueModel::Bool(_) => SchemaType::Boolean,
        ValueModel::Int(_) => SchemaType::Integer,
        ValueModel::Str(_) => SchemaType::String,
        ValueModel::Arr(_) => SchemaType::Array,
        ValueModel::Obj(_) => SchemaType::Object,
    }
}

/// Reports the runtime kind of `v`.
pub fn kind_of(v: &Value) -> (t: SchemaType)
    ensures
        t == spec_kind_of(v@),
{
    match v {
        Value::Null => SchemaType::Null,
        Value::Bool(_) => SchemaType::Boolean,
        Value::Int(_) => SchemaType::Integer,
        Value::Str(_) => SchemaType::String,
        Value::Arr(_) => SchemaType::Array,
        Value::Obj(_) => SchemaType::Object,
    }
}

/// Whether a value of kind `v` satisfies the declared type `t`.
/// An integer satisfies both `integer` and `number`, since every
/// number this model can hold is mathematically integral.
pub open spec fn spec_type_matches(t: SchemaType, v: ValueModel) -> bool {
    match t {
        SchemaType::Null => v is Null,
        SchemaType::Boolean => v is Bool,
        SchemaType::Integer => v is Int,
        SchemaType::Number => v is Int,
        SchemaType::String => v is Str,
        SchemaType::Array => v is Arr,
        SchemaType::Object => v is Obj,
    }
}

/// Decides whether `v` satisfies the declared type `t`.
pub fn type_matches(t: SchemaType, v: &Value) -> (r: bool)
    ensures
        r == spec_type_matches(t, v@),
{
    match t {
        SchemaType::Null => matches!(v, Value::Null),
        SchemaType::Boolean => matches!(v, Value::Bool(_)),
        SchemaType::Integer => matches!(v, Value::Int(_)),
        SchemaType::Number => matches!(v, Value::Int(_)),
        SchemaType::String => matches!(v, Value::Str(_)),
        SchemaType::Array => matches!(v, Value::Arr(_)),
        SchemaType::Object => matches!(v, Value::Obj(_)),
    }
}

} // verus!
