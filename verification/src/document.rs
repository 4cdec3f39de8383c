//! The typed document tree: metadata, paths, and the components
//! section that internal references point into.

use vstd::prelude::*;

use crate::schema::ObjectOrReference;
use crate::schema::Schema;

verus! {

/// Contact information for the exposed API.
#[derive(Debug, PartialEq)]
pub struct Contact {
    /// The identifying name of the contact person or organization.
    pub name: Option<String>,
    /// The URL pointing to the contact information.
    pub url: Option<String>,
    /// The email address of the contact person or organization.
    pub email: Option<String>,
}

/// Metadata about the API: title and version are required by the
/// document format, the rest is optional.
#[derive(Debug, PartialEq)]
pub struct Info {
    /// The title of the API.
    pub title: String,
    /// The version of this document.
    pub version: String,
    /// Contact information, if any.
    pub contact: Option<Contact>,
}

/// A single operation parameter.
#[derive(Debug, PartialEq)]
pub struct Parameter {
    /// The parameter's name.
    pub name: String,
    /// Where the parameter appears: `query`, `header`, `path` or `cookie`.
    pub location: String,
    /// Whether the parameter must be supplied.
    pub required: bool,
    /// The schema that the parameter's value must satisfy.
    pub schema: Option<ObjectOrReference<Schema>>,
}

/// A single response of an operation.
#[derive(Debug, PartialEq)]
pub struct Response {
    /// A short description of the response.
    pub description: Option<String>,
}

/// One operation on a path.
#[derive(Debug, PartialEq)]
pub struct Operation {
    /// A short summary of what the operation does.
    pub summary: Option<String>,
    /// The parameters of the operation.
    pub parameters: Vec<ObjectOrReference<Parameter>>,
    /// The possible responses, keyed by status code pattern,
    /// in document order.
    pub responses: Vec<(String, ObjectOrReference<Response>)>,
}

/// The operations available on a single URL-template path.
#[derive(Debug, PartialEq)]
pub struct PathItem {
    /// A short summary of the path.
    pub summary: Option<String>,
    /// A longer description of the path.
    pub description: Option<String>,
    /// The GET operation, if declared.
    pub get: Option<Operation>,
    /// The PUT operation, if declared.
    pub put: Option<Operation>,
    /// The POST operation, if declared.
    pub post: Option<Operation>,
    /// The DELETE operation, if declared.
    pub delete: Option<Operation>,
}

/// The named component mappings that internal references point into.
/// Each mapping keeps document order; names are expected to be unique
/// within a mapping.
#[derive(Debug, PartialEq)]
pub struct Components {
    /// Reusable schemas, by name.
    pub schemas: Vec<(String, Schema)>,
    /// Reusable parameters, by name.
    pub parameters: Vec<(String, Parameter)>,
    /// Reusable responses, by name.
    pub responses: Vec<(String, Response)>,
}

/// A fully typed document: the root of the model. The resolver and the
/// validator only ever read it.
#[derive(Debug, PartialEq)]
pub struct Document {
    /// The version of the document format in use.
    pub openapi: String,
    /// Metadata about the API.
    pub info: Info,
    /// The available paths, in document order.
    pub paths: Vec<(String, PathItem)>,
    /// The components section, the only valid target of an internal
    /// reference.
    pub components: Option<Components>,
}

impl Components {
    /// A components section with every mapping empty.
    pub fn new() -> (c: Components)
        ensures
            c.schemas@.len() == 0,
            c.parameters@.len() == 0,
            c.responses@.len() == 0,
    {
        Components { schemas: Vec::new(), parameters: Vec::new(), responses: Vec::new() }
    }
}

} // verus!
