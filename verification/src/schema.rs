//! Schema nodes and the inline-or-reference cell used wherever the
//! document format admits a `$ref`.

use vstd::prelude::*;

use crate::value::SchemaType;
use crate::value::Value;

verus! {

/// A slot that holds either an inline object or a pointer to a named
/// entry in the document's components section.
#[derive(Debug, PartialEq)]
pub enum ObjectOrReference<T> {
    /// An inline object.
    Object(T),
    /// A pointer of the form `#/components/<kind>/<name>`.
    Ref { ref_path: String },
}

/// The policy a schema declares for object keys that match no declared
/// property.
#[derive(Debug, PartialEq)]
pub enum AdditionalProperties {
    /// Undeclared keys are unconstrained (the keyword is absent or `true`).
    Unconstrained,
    /// Undeclared keys are forbidden (the keyword is `false`).
    Forbidden,
    /// Undeclared keys must satisfy the given schema.
    Constrained(Box<ObjectOrReference<Schema>>),
}

/// A recursive schema node: a set of admissible types, composition
/// children, structural constraints for arrays and objects, and scalar
/// constraints. Every field is optional; an empty vector or `None`
/// means the keyword is absent.
#[derive(Debug, PartialEq)]
pub struct Schema {
    /// The `type` keyword: zero or more admissible kinds.
    pub schema_types: Vec<SchemaType>,
    /// `allOf`: every branch must hold.
    pub all_of: Vec<ObjectOrReference<Schema>>,
    /// `anyOf`: at least one branch must hold.
    pub any_of: Vec<ObjectOrReference<Schema>>,
    /// `oneOf`: exactly one branch must hold.
    pub one_of: Vec<ObjectOrReference<Schema>>,
    /// `not`: the branch must fail.
    pub not_schema: Option<Box<ObjectOrReference<Schema>>>,
    /// `items`: the schema of every array element.
    pub items: Option<Box<ObjectOrReference<Schema>>>,
    /// `properties`: declared object properties, in declaration order.
    pub properties: Vec<(String, ObjectOrReference<Schema>)>,
    /// `additionalProperties`: policy for undeclared keys.
    pub additional_properties: AdditionalProperties,
    /// `required`: keys that an object must hold.
    pub required: Vec<String>,
    /// `minimum`: inclusive lower numeric bound.
    pub minimum: Option<i64>,
    /// `maximum`: inclusive upper numeric bound.
    pub maximum: Option<i64>,
    /// `exclusiveMinimum`: strict lower numeric bound.
    pub exclusive_minimum: Option<i64>,
    /// `exclusiveMaximum`: strict upper numeric bound.
    pub exclusive_maximum: Option<i64>,
    /// `multipleOf`: the value must be an integer multiple of this.
    pub multiple_of: Option<i64>,
    /// `minLength`: least string length, in unicode scalars.
    pub min_length: Option<usize>,
    /// `maxLength`: greatest string length, in unicode scalars.
    pub max_length: Option<usize>,
    /// `pattern`: a regular expression the string must match.
    pub pattern: Option<String>,
    /// `format`: a named format; unrecognized names are not checked.
    pub format: Option<String>,
    /// `minItems`: least array length.
    pub min_items: Option<usize>,
    /// `maxItems`: greatest array length.
    pub max_items: Option<usize>,
    /// `uniqueItems`: elements must be pairwise distinct.
    pub unique_items: bool,
    /// `enum`: the value must deep-equal one of these.
    pub enum_values: Vec<Value>,
    /// `const`: the value must deep-equal this.
    pub const_value: Option<Box<Value>>,
}

impl Schema {
    /// A schema with every keyword absent; it constrains nothing.
    pub fn new() -> (s: Schema)
        ensures
            s.schema_types@.len() == 0,
            s.all_of@.len() == 0,
            s.any_of@.len() == 0,
            s.one_of@.len() == 0,
            s.not_schema is None,
            s.items is None,
            s.properties@.len() == 0,
            s.additional_properties == AdditionalProperties::Unconstrained,
            s.required@.len() == 0,
            s.minimum is None,
            s.maximum is None,
            s.exclusive_minimum is None,
            s.exclusive_maximum is None,
            s.multiple_of is None,
            s.min_length is None,
            s.max_length is None,
            s.pattern is None,
            s.format is None,
            s.min_items is None,
            s.max_items is None,
            !s.unique_items,
            s.enum_values@.len() == 0,
            s.const_value is None,
    {
        Schema {
            schema_types: Vec::new(),
            all_of: Vec::new(),
            any_of: Vec::new(),
            one_of: Vec::new(),
            not_schema: None,
            items: None,
            properties: Vec::new(),
            additional_properties: AdditionalProperties::Unconstrained,
            required: Vec::new(),
            minimum: None,
            maximum: None,
            exclusive_minimum: None,
            exclusive_maximum: None,
            multiple_of: None,
            min_length: None,
            max_length: None,
            pattern: None,
            format: None,
            min_items: None,
            max_items: None,
            unique_items: false,
            enum_values: Vec::new(),
            const_value: None,
        }
    }
}

} // verus!
