use oas3::document::Components;
use oas3::document::Contact;
use oas3::document::Document;
use oas3::document::Info;
use oas3::document::Parameter;
use oas3::document::Response;
use oas3::resolve::parse_pointer;
use oas3::resolve::resolve_parameter;
use oas3::resolve::resolve_response;
use oas3::resolve::resolve_schema;
use oas3::resolve::ResolutionError;
use oas3::schema::ObjectOrReference;
use oas3::schema::Schema;

fn empty_doc() -> Document {
    Document {
        openapi: "3.1.0".to_string(),
        info: Info {
            title: "Test API".to_string(),
            version: "0.1".to_string(),
            contact: Some(Contact {
                name: Some("team".to_string()),
                url: Some("https://example.com".to_string()),
                email: None,
            }),
        },
        paths: Vec::new(),
        components: None,
    }
}

fn doc_with_schema(name: &str, schema: Schema) -> Document {
    let mut doc = empty_doc();
    let mut components = Components::new();
    components.schemas.push((name.to_string(), schema));
    doc.components = Some(components);
    doc
}

#[test]
fn resolve_inline_is_identity() {
    let mut s = Schema::new();
    s.minimum = Some(3);
    let cell = ObjectOrReference::Object(s);
    let doc = empty_doc();
    let resolved = resolve_schema(&cell, &doc).expect("inline resolution cannot fail");
    assert_eq!(resolved.minimum, Some(3));
}

#[test]
fn resolve_known_reference_returns_entry() {
    let mut s = Schema::new();
    s.maximum = Some(9);
    let doc = doc_with_schema("pet", s);
    let cell: ObjectOrReference<Schema> = ObjectOrReference::Ref {
        ref_path: "#/components/schemas/pet".to_string(),
    };
    let resolved = resolve_schema(&cell, &doc).expect("the entry exists");
    assert_eq!(resolved.maximum, Some(9));
}

#[test]
fn resolve_unknown_name_fails() {
    let doc = doc_with_schema("pet", Schema::new());
    let cell: ObjectOrReference<Schema> = ObjectOrReference::Ref {
        ref_path: "#/components/schemas/other".to_string(),
    };
    let err = resolve_schema(&cell, &doc).unwrap_err();
    assert_eq!(
        err,
        ResolutionError::UnknownReference {
            kind: "schemas".to_string(),
            name: "other".to_string(),
        }
    );
}

#[test]
fn resolve_wrong_kind_fails() {
    let doc = doc_with_schema("pet", Schema::new());
    let cell: ObjectOrReference<Schema> = ObjectOrReference::Ref {
        ref_path: "#/components/parameters/pet".to_string(),
    };
    let err = resolve_schema(&cell, &doc).unwrap_err();
    assert_eq!(
        err,
        ResolutionError::UnknownReference {
            kind: "parameters".to_string(),
            name: "pet".to_string(),
        }
    );
}

#[test]
fn resolve_malformed_pointers_fail() {
    let doc = doc_with_schema("pet", Schema::new());
    for bad in [
        "nonsense",
        "#/components/schemas",
        "#/components/schemas/",
        "#/components//pet",
        "#/components/schemas/a/b",
        "#/definitions/schemas/pet",
    ] {
        let cell: ObjectOrReference<Schema> = ObjectOrReference::Ref {
            ref_path: bad.to_string(),
        };
        let err = resolve_schema(&cell, &doc).unwrap_err();
        assert_eq!(err, ResolutionError::MalformedPointer, "pointer {:?}", bad);
    }
}

#[test]
fn resolve_without_components_fails() {
    let doc = empty_doc();
    let cell: ObjectOrReference<Schema> = ObjectOrReference::Ref {
        ref_path: "#/components/schemas/pet".to_string(),
    };
    let err = resolve_schema(&cell, &doc).unwrap_err();
    assert_eq!(
        err,
        ResolutionError::UnknownReference {
            kind: "schemas".to_string(),
            name: "pet".to_string(),
        }
    );
}

#[test]
fn resolve_parameter_by_reference() {
    let mut doc = empty_doc();
    let mut components = Components::new();
    components.parameters.push((
        "limit".to_string(),
        Parameter {
            name: "limit".to_string(),
            location: "query".to_string(),
            required: false,
            schema: None,
        },
    ));
    doc.components = Some(components);
    let cell: ObjectOrReference<Parameter> = ObjectOrReference::Ref {
        ref_path: "#/components/parameters/limit".to_string(),
    };
    let resolved = resolve_parameter(&cell, &doc).expect("the entry exists");
    assert_eq!(resolved.location, "query");
}

#[test]
fn resolve_response_by_reference() {
    let mut doc = empty_doc();
    let mut components = Components::new();
    components.responses.push((
        "ok".to_string(),
        Response {
            description: Some("all good".to_string()),
        },
    ));
    doc.components = Some(components);
    let cell: ObjectOrReference<Response> = ObjectOrReference::Ref {
        ref_path: "#/components/responses/ok".to_string(),
    };
    let resolved = resolve_response(&cell, &doc).expect("the entry exists");
    assert_eq!(resolved.description.as_deref(), Some("all good"));
}

#[test]
fn parse_pointer_decomposes_kind_and_name() {
    let parsed = parse_pointer("#/components/schemas/pet").expect("well formed");
    assert_eq!(parsed.0, "schemas");
    assert_eq!(parsed.1, "pet");
    assert!(parse_pointer("#/components/").is_none());
    assert!(parse_pointer("#/components/schemaspet").is_none());
    assert!(parse_pointer("").is_none());
}
