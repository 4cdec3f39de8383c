use oas3::document::Components;
use oas3::document::Document;
use oas3::document::Info;
use oas3::schema::AdditionalProperties;
use oas3::schema::ObjectOrReference;
use oas3::schema::Schema;
use oas3::validate::validate_value;
use oas3::validate::validate_value_with_depth;
use oas3::validate::PathSeg;
use oas3::validate::ValidationOutcome;
use oas3::validate::ViolationKind;
use oas3::value::SchemaType;
use oas3::value::value_eq;
use oas3::value::Value;

fn empty_doc() -> Document {
    Document {
        openapi: "3.1.0".to_string(),
        info: Info {
            title: "Test API".to_string(),
            version: "0.1".to_string(),
            contact: None,
        },
        paths: Vec::new(),
        components: None,
    }
}

fn doc_with_schemas(entries: Vec<(&str, Schema)>) -> Document {
    let mut doc = empty_doc();
    let mut components = Components::new();
    for (name, schema) in entries {
        components.schemas.push((name.to_string(), schema));
    }
    doc.components = Some(components);
    doc
}

fn typed(t: SchemaType) -> Schema {
    let mut s = Schema::new();
    s.schema_types = vec![t];
    s
}

fn kinds(outcome: &ValidationOutcome) -> Vec<&ViolationKind> {
    match outcome {
        ValidationOutcome::Valid => Vec::new(),
        ValidationOutcome::Invalid(vs) => vs.iter().map(|v| &v.kind).collect(),
    }
}

#[test]
fn integer_minimum_accepts_and_rejects() {
    let doc = empty_doc();
    let mut s = typed(SchemaType::Integer);
    s.minimum = Some(0);
    assert_eq!(validate_value(&Value::Int(0), &s, &doc), ValidationOutcome::Valid);
    assert_eq!(validate_value(&Value::Int(5), &s, &doc), ValidationOutcome::Valid);
    assert_eq!(
        kinds(&validate_value(&Value::Int(-1), &s, &doc)),
        vec![&ViolationKind::BelowMinimum]
    );
    let out = validate_value(&Value::Str("5".to_string()), &s, &doc);
    assert_eq!(
        kinds(&out),
        vec![&ViolationKind::TypeMismatch {
            expected: vec![SchemaType::Integer],
            actual: SchemaType::String,
        }]
    );
}

#[test]
fn required_and_additional_properties() {
    let doc = empty_doc();
    let mut s = typed(SchemaType::Object);
    s.required = vec!["id".to_string()];
    s.properties = vec![(
        "id".to_string(),
        ObjectOrReference::Object(typed(SchemaType::String)),
    )];
    s.additional_properties = AdditionalProperties::Forbidden;
    let value = Value::Obj(vec![
        ("id".to_string(), Value::Str("a".to_string())),
        ("extra".to_string(), Value::Int(1)),
    ]);
    match validate_value(&value, &s, &doc) {
        ValidationOutcome::Invalid(vs) => {
            assert_eq!(vs.len(), 1);
            assert_eq!(
                vs[0].kind,
                ViolationKind::UnexpectedProperty { name: "extra".to_string() }
            );
            assert_eq!(vs[0].path, vec![PathSeg::Key("extra".to_string())]);
        }
        ValidationOutcome::Valid => panic!("the extra key must be reported"),
    }
}

#[test]
fn missing_required_property_is_reported() {
    let doc = empty_doc();
    let mut s = typed(SchemaType::Object);
    s.required = vec!["id".to_string()];
    let value = Value::Obj(vec![("other".to_string(), Value::Int(1))]);
    assert_eq!(
        kinds(&validate_value(&value, &s, &doc)),
        vec![&ViolationKind::MissingRequiredProperty { name: "id".to_string() }]
    );
}

#[test]
fn self_reference_bottoms_out_on_null() {
    let mut node = Schema::new();
    node.properties = vec![(
        "next".to_string(),
        ObjectOrReference::Ref {
            ref_path: "#/components/schemas/node".to_string(),
        },
    )];
    let doc = doc_with_schemas(vec![("node", node)]);
    let top = match &doc.components {
        Some(c) => &c.schemas[0].1,
        None => unreachable!(),
    };
    let value = Value::Obj(vec![(
        "next".to_string(),
        Value::Obj(vec![(
            "next".to_string(),
            Value::Obj(vec![("next".to_string(), Value::Null)]),
        )]),
    )]);
    assert_eq!(validate_value(&value, top, &doc), ValidationOutcome::Valid);
}

#[test]
fn looping_reference_chain_reports_cyclic_schema() {
    fn schema_a() -> Schema {
        let mut a = Schema::new();
        a.all_of = vec![ObjectOrReference::Ref {
            ref_path: "#/components/schemas/b".to_string(),
        }];
        a
    }
    let mut b = Schema::new();
    b.all_of = vec![ObjectOrReference::Ref {
        ref_path: "#/components/schemas/a".to_string(),
    }];
    let doc = doc_with_schemas(vec![("a", schema_a()), ("b", b)]);
    let out = validate_value(&Value::Int(1), &schema_a(), &doc);
    assert_eq!(kinds(&out), vec![&ViolationKind::CyclicSchema]);
}

#[test]
fn depth_guard_reports_cyclic_schema() {
    let mut a = Schema::new();
    a.all_of = vec![ObjectOrReference::Ref {
        ref_path: "#/components/schemas/a".to_string(),
    }];
    let mut target = Schema::new();
    target.all_of = vec![ObjectOrReference::Ref {
        ref_path: "#/components/schemas/a".to_string(),
    }];
    let doc = doc_with_schemas(vec![("a", a)]);
    let out = validate_value_with_depth(&Value::Int(1), &target, &doc, 0);
    assert_eq!(kinds(&out), vec![&ViolationKind::CyclicSchema]);
}

#[test]
fn enum_and_const_checks() {
    let doc = empty_doc();
    let mut s = Schema::new();
    s.enum_values = vec![Value::Int(1), Value::Str("x".to_string())];
    assert_eq!(
        validate_value(&Value::Str("x".to_string()), &s, &doc),
        ValidationOutcome::Valid
    );
    assert_eq!(
        kinds(&validate_value(&Value::Int(2), &s, &doc)),
        vec![&ViolationKind::NotInEnum]
    );
    let mut c = Schema::new();
    c.const_value = Some(Box::new(Value::Bool(true)));
    assert_eq!(validate_value(&Value::Bool(true), &c, &doc), ValidationOutcome::Valid);
    assert_eq!(
        kinds(&validate_value(&Value::Bool(false), &c, &doc)),
        vec![&ViolationKind::NotInEnum]
    );
}

#[test]
fn exclusive_bounds_are_strict() {
    let doc = empty_doc();
    let mut s = Schema::new();
    s.exclusive_minimum = Some(0);
    s.exclusive_maximum = Some(10);
    assert_eq!(
        kinds(&validate_value(&Value::Int(0), &s, &doc)),
        vec![&ViolationKind::BelowMinimum]
    );
    assert_eq!(
        kinds(&validate_value(&Value::Int(10), &s, &doc)),
        vec![&ViolationKind::AboveMaximum]
    );
    assert_eq!(validate_value(&Value::Int(1), &s, &doc), ValidationOutcome::Valid);
}

#[test]
fn multiple_of_uses_magnitude() {
    let doc = empty_doc();
    let mut s = Schema::new();
    s.multiple_of = Some(3);
    assert_eq!(validate_value(&Value::Int(9), &s, &doc), ValidationOutcome::Valid);
    assert_eq!(validate_value(&Value::Int(-6), &s, &doc), ValidationOutcome::Valid);
    assert_eq!(
        kinds(&validate_value(&Value::Int(10), &s, &doc)),
        vec![&ViolationKind::NotMultipleOf]
    );
}

#[test]
fn string_length_counts_scalars() {
    let doc = empty_doc();
    let mut s = Schema::new();
    s.min_length = Some(2);
    s.max_length = Some(3);
    assert_eq!(
        kinds(&validate_value(&Value::Str("é".to_string()), &s, &doc)),
        vec![&ViolationKind::StringTooShort]
    );
    assert_eq!(
        validate_value(&Value::Str("ééé".to_string()), &s, &doc),
        ValidationOutcome::Valid
    );
    assert_eq!(
        kinds(&validate_value(&Value::Str("aaaa".to_string()), &s, &doc)),
        vec![&ViolationKind::StringTooLong]
    );
}

#[test]
fn pattern_is_checked_with_a_real_matcher() {
    let doc = empty_doc();
    let mut s = Schema::new();
    s.pattern = Some("^a+$".to_string());
    assert_eq!(
        validate_value(&Value::Str("aaa".to_string()), &s, &doc),
        ValidationOutcome::Valid
    );
    assert_eq!(
        kinds(&validate_value(&Value::Str("bbb".to_string()), &s, &doc)),
        vec![&ViolationKind::PatternMismatch]
    );
    let mut bad = Schema::new();
    bad.pattern = Some("(".to_string());
    assert_eq!(
        validate_value(&Value::Str("anything".to_string()), &bad, &doc),
        ValidationOutcome::Valid
    );
}

#[test]
fn uri_format_is_checked_and_unknown_formats_pass() {
    let doc = empty_doc();
    let mut s = Schema::new();
    s.format = Some("uri".to_string());
    assert_eq!(
        validate_value(&Value::Str("https://example.com/pets".to_string()), &s, &doc),
        ValidationOutcome::Valid
    );
    assert_eq!(
        kinds(&validate_value(&Value::Str("not a uri".to_string()), &s, &doc)),
        vec![&ViolationKind::FormatInvalid]
    );
    let mut unknown = Schema::new();
    unknown.format = Some("hovercraft".to_string());
    assert_eq!(
        validate_value(&Value::Str("whatever".to_string()), &unknown, &doc),
        ValidationOutcome::Valid
    );
}

#[test]
fn array_bounds_uniqueness_and_item_paths() {
    let doc = empty_doc();
    let mut s = Schema::new();
    s.min_items = Some(1);
    assert_eq!(
        kinds(&validate_value(&Value::Arr(vec![]), &s, &doc)),
        vec![&ViolationKind::ArrayTooShort]
    );
    let mut long = Schema::new();
    long.max_items = Some(1);
    let two = Value::Arr(vec![Value::Int(1), Value::Int(2)]);
    assert_eq!(
        kinds(&validate_value(&two, &long, &doc)),
        vec![&ViolationKind::ArrayTooLong]
    );
    let mut u = Schema::new();
    u.unique_items = true;
    let dup = Value::Arr(vec![Value::Int(1), Value::Int(2), Value::Int(1)]);
    assert_eq!(kinds(&validate_value(&dup, &u, &doc)), vec![&ViolationKind::DuplicateItems]);
    let mut items = Schema::new();
    items.items = Some(Box::new(ObjectOrReference::Object(typed(SchemaType::Integer))));
    let mixed = Value::Arr(vec![Value::Int(1), Value::Str("a".to_string())]);
    match validate_value(&mixed, &items, &doc) {
        ValidationOutcome::Invalid(vs) => {
            assert_eq!(vs.len(), 1);
            assert_eq!(vs[0].path, vec![PathSeg::Index(1)]);
        }
        ValidationOutcome::Valid => panic!("the string element must be reported"),
    }
}

#[test]
fn all_of_collects_the_union_of_branch_violations() {
    let doc = empty_doc();
    fn branch_a() -> Schema {
        let mut a = Schema::new();
        a.minimum = Some(5);
        a
    }
    fn branch_b() -> Schema {
        let mut b = Schema::new();
        b.maximum = Some(3);
        b
    }
    let a = branch_a();
    let b = branch_b();
    let mut s = Schema::new();
    s.all_of = vec![
        ObjectOrReference::Object(branch_a()),
        ObjectOrReference::Object(branch_b()),
    ];
    let v = Value::Int(4);
    let out_combined = validate_value(&v, &s, &doc);
    let out_a = validate_value(&v, &a, &doc);
    let out_b = validate_value(&v, &b, &doc);
    let combined = kinds(&out_combined);
    let mut expected = kinds(&out_a);
    expected.extend(kinds(&out_b));
    assert_eq!(combined, expected);
    assert_eq!(
        combined,
        vec![&ViolationKind::BelowMinimum, &ViolationKind::AboveMaximum]
    );
}

#[test]
fn one_of_needs_exactly_one_match() {
    let doc = empty_doc();
    let mut s = Schema::new();
    s.one_of = vec![
        ObjectOrReference::Object(Schema::new()),
        ObjectOrReference::Object(Schema::new()),
    ];
    assert_eq!(
        kinds(&validate_value(&Value::Int(1), &s, &doc)),
        vec![&ViolationKind::MultipleMatchingBranches]
    );
    let mut none = Schema::new();
    none.one_of = vec![
        ObjectOrReference::Object(typed(SchemaType::String)),
        ObjectOrReference::Object(typed(SchemaType::Boolean)),
    ];
    assert_eq!(
        kinds(&validate_value(&Value::Int(1), &none, &doc)),
        vec![&ViolationKind::NoMatchingBranch]
    );
    let mut one = Schema::new();
    one.one_of = vec![
        ObjectOrReference::Object(typed(SchemaType::Integer)),
        ObjectOrReference::Object(typed(SchemaType::String)),
    ];
    assert_eq!(validate_value(&Value::Int(1), &one, &doc), ValidationOutcome::Valid);
}

#[test]
fn any_of_reports_one_violation_per_failing_branch() {
    let doc = empty_doc();
    let mut a = Schema::new();
    a.minimum = Some(5);
    let mut s = Schema::new();
    s.any_of = vec![
        ObjectOrReference::Object(a),
        ObjectOrReference::Object(typed(SchemaType::String)),
    ];
    assert_eq!(
        kinds(&validate_value(&Value::Int(1), &s, &doc)),
        vec![
            &ViolationKind::BelowMinimum,
            &ViolationKind::TypeMismatch {
                expected: vec![SchemaType::String],
                actual: SchemaType::Integer,
            },
        ]
    );
    assert_eq!(validate_value(&Value::Int(7), &s, &doc), ValidationOutcome::Valid);
}

#[test]
fn not_inverts_the_branch() {
    let doc = empty_doc();
    let mut s = Schema::new();
    s.not_schema = Some(Box::new(ObjectOrReference::Object(typed(SchemaType::Integer))));
    assert_eq!(
        kinds(&validate_value(&Value::Int(1), &s, &doc)),
        vec![&ViolationKind::DisallowedByNot]
    );
    assert_eq!(
        validate_value(&Value::Str("a".to_string()), &s, &doc),
        ValidationOutcome::Valid
    );
}

#[test]
fn unresolvable_reference_is_a_violation() {
    let doc = empty_doc();
    let mut s = Schema::new();
    s.items = Some(Box::new(ObjectOrReference::Ref {
        ref_path: "#/components/schemas/missing".to_string(),
    }));
    let out = validate_value(&Value::Arr(vec![Value::Int(1)]), &s, &doc);
    assert_eq!(kinds(&out), vec![&ViolationKind::UnresolvableSchema]);
}

#[test]
fn validation_is_idempotent() {
    let doc = empty_doc();
    let mut s = typed(SchemaType::Integer);
    s.minimum = Some(0);
    let v = Value::Int(-4);
    let first = validate_value(&v, &s, &doc);
    let second = validate_value(&v, &s, &doc);
    assert_eq!(first, second);
}

#[test]
fn empty_schema_accepts_everything() {
    let doc = empty_doc();
    let s = Schema::new();
    for v in [
        Value::Null,
        Value::Bool(false),
        Value::Int(-3),
        Value::Str(String::new()),
        Value::Arr(Vec::new()),
        Value::Obj(Vec::new()),
    ] {
        assert_eq!(validate_value(&v, &s, &doc), ValidationOutcome::Valid);
    }
}

#[test]
fn deep_equality_follows_structure() {
    let a = Value::Obj(vec![(
        "xs".to_string(),
        Value::Arr(vec![Value::Int(1), Value::Null]),
    )]);
    let b = Value::Obj(vec![(
        "xs".to_string(),
        Value::Arr(vec![Value::Int(1), Value::Null]),
    )]);
    let c = Value::Obj(vec![(
        "xs".to_string(),
        Value::Arr(vec![Value::Int(2), Value::Null]),
    )]);
    assert!(value_eq(&a, &b));
    assert!(!value_eq(&a, &c));
}
