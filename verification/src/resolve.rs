//! Reference resolution: parsing `#/components/<kind>/<name>` pointers
//! and looking the name up in the owning document's components section.
//!
//! Each call resolves exactly one hop; chained resolution, and any
//! cycle detection it needs, is the caller's concern.

use vstd::prelude::*;

use crate::document::Document;
use crate::document::Parameter;
use crate::document::Response;
use crate::schema::ObjectOrReference;
use crate::schema::Schema;

verus! {

/// Why a single resolution hop failed.
#[derive(Debug, PartialEq)]
pub enum ResolutionError {
    /// The pointer string does not have the shape
    /// `#/components/<kind>/<name>`.
    MalformedPointer,
    /// The pointer is well formed but no component of that kind and
    /// name exists.
    UnknownReference { kind: String, name: String },
}

/// The mathematical shape of a [`ResolutionError`].
pub enum ResolutionErrorModel {
    MalformedPointer,
    UnknownReference { kind: Seq<char>, name: Seq<char> },
}

impl View for ResolutionError {
    type V = ResolutionErrorModel;

    open spec fn view(&self) -> ResolutionErrorModel {
        match self {
            ResolutionError::MalformedPointer => ResolutionErrorModel::MalformedPointer,
            ResolutionError::UnknownReference { kind, name } => {
                ResolutionErrorModel::UnknownReference { kind: kind@, name: name@ }
            },
        }
    }
}

/// Decides equality of two strings by their character sequences.
pub fn str_eq(a: &str, b: &str) -> (r: bool)
    ensures
        r == (a@ == b@),
{
    let n = a.unicode_len();
    if n != b.unicode_len() {
        return false;
    }
    let mut i: usize = 0;
    while i < n
        invariant
            i <= n,
            n == a@.len(),
            n == b@.len(),
            forall|j: int| 0 <= j < i ==> a@[j] == b@[j],
        decreases n - i,
    {
        if a.get_char(i) != b.get_char(i) {
            return false;
        }
        i += 1;
    }
    proof {
        assert(a@ =~= b@);
    }
    true
}

/// The index of the first `/` at or after position `i`, if any.
pub open spec fn spec_find_slash(s: Seq<char>, i: int) -> Option<int>
    decreases s.len() - i,
{
    if i < 0 || i >= s.len() {
        None
    } else if s[i] == '/' {
        Some(i)
    } else {
        spec_find_slash(s, i + 1)
    }
}

fn find_slash(s: &str, from: usize) -> (r: Option<usize>)
    requires
        from <= s@.len(),
    ensures
        match r {
            Some(i) => spec_find_slash(s@, from as int) == Some(i as int) && from <= i
                < s@.len(),
            None => spec_find_slash(s@, from as int) is None,
        },
{
    let n = s.unicode_len();
    let mut i = from;
    while i < n
        invariant
            from <= i <= n,
            n == s@.len(),
            spec_find_slash(s@, from as int) == spec_find_slash(s@, i as int),
        decreases n - i,
    {
        if s.get_char(i) == '/' {
            return Some(i);
        }
        i += 1;
    }
    None
}

/// The decomposition of a pointer string: `Some((kind, name))` when the
/// string is `#/components/<kind>/<name>` with `<kind>` and `<name>`
/// nonempty and free of further slashes, `None` otherwise.
pub open spec fn spec_parse_pointer(s: Seq<char>) -> Option<(Seq<char>, Seq<char>)> {
    if s.len() > 13 && s.subrange(0, 13) == "#/components/"@ {
        match spec_find_slash(s, 13) {
            Some(i) => {
                if 13 < i && i + 1 < s.len() && spec_find_slash(s, i + 1) is None {
                    Some((s.subrange(13, i), s.subrange(i + 1, s.len() as int)))
                } else {
                    None
                }
            },
            None => None,
        }
    } else {
        None
    }
}

/// Splits a pointer of the form `#/components/<kind>/<name>` into its
/// kind and name; any other shape is malformed.
pub fn parse_pointer(ptr: &str) -> (r: Option<(String, String)>)
    ensures
        match r {
            Some(p) => spec_parse_pointer(ptr@) == Some((p.0@, p.1@)),
            None => spec_parse_pointer(ptr@) is None,
        },
{
    proof {
        reveal_strlit("#/components/");
    }
    let n = ptr.unicode_len();
    if n < 14 {
        return None;
    }
    let prefix = ptr.substring_char(0, 13);
    if !str_eq(prefix, "#/components/") {
        return None;
    }
    match find_slash(ptr, 13) {
        None => None,
        Some(i) => {
            if !(13 < i) {
                return None;
            }
            if !(i + 1 < n) {
                return None;
            }
            match find_slash(ptr, i + 1) {
                Some(_) => None,
                None => {
                    let kind = ptr.substring_char(13, i).to_owned();
                    let name = ptr.substring_char(i + 1, n).to_owned();
                    Some((kind, name))
                },
            }
        },
    }
}

/// The first entry with the given name, searching in document order.
pub open spec fn spec_lookup<T>(entries: Seq<(String, T)>, name: Seq<char>) -> Option<T>
    decreases entries.len(),
{
    if entries.len() == 0 {
        None
    } else if entries[0].0@ == name {
        Some(entries[0].1)
    } else {
        spec_lookup(entries.subrange(1, entries.len() as int), name)
    }
}

/// Finds the first entry named `name`.
pub fn lookup<'a, T>(entries: &'a Vec<(String, T)>, name: &str) -> (r: Option<&'a T>)
    ensures
        match r {
            Some(t) => spec_lookup(entries@, name@) == Some(*t),
            None => spec_lookup(entries@, name@) is None,
        },
{
    let n = entries.len();
    proof {
        assert(entries@.subrange(0, n as int) =~= entries@);
    }
    let mut i: usize = 0;
    while i < n
        invariant
            i <= n,
            n == entries@.len(),
            spec_lookup(entries@, name@) == spec_lookup(
                entries@.subrange(i as int, n as int),
                name@,
            ),
        decreases n - i,
    {
        proof {
            assert(entries@.subrange(i as int, n as int)[0] == entries@[i as int]);
        }
        if str_eq(entries[i].0.as_str(), name) {
            return Some(&entries[i].1);
        }
        proof {
            assert(entries@.subrange(i as int, n as int).subrange(
                1,
                entries@.subrange(i as int, n as int).len() as int,
            ) =~= entries@.subrange(i + 1 as int, n as int));
        }
        i += 1;
    }
    proof {
        assert(entries@.subrange(n as int, n as int).len() == 0);
    }
    None
}

/// One resolution hop against a single component mapping: the generic
/// core shared by the kind-specific resolvers. `kind_word` is the kind
/// segment that selects this mapping.
pub open spec fn spec_resolve_component<T>(
    cell: ObjectOrReference<T>,
    entries: Seq<(String, T)>,
    kind_word: Seq<char>,
) -> Result<T, ResolutionErrorModel> {
    match cell {
        ObjectOrReference::Object(t) => Ok(t),
        ObjectOrReference::Ref { ref_path } => match spec_parse_pointer(ref_path@) {
            None => Err(ResolutionErrorModel::MalformedPointer),
            Some(kn) => {
                if kn.0 == kind_word {
                    match spec_lookup(entries, kn.1) {
                        Some(t) => Ok(t),
                        None => Err(
                            ResolutionErrorModel::UnknownReference { kind: kn.0, name: kn.1 },
                        ),
                    }
                } else {
                    Err(ResolutionErrorModel::UnknownReference { kind: kn.0, name: kn.1 })
                }
            },
        },
    }
}

fn resolve_component<'a, T>(
    cell: &'a ObjectOrReference<T>,
    entries: &'a Vec<(String, T)>,
    kind_word: &str,
) -> (r: Result<&'a T, ResolutionError>)
    ensures
        match r {
            Ok(t) => spec_resolve_component(*cell, entries@, kind_word@) == Ok::<
                T,
                ResolutionErrorModel,
            >(*t),
            Err(e) => spec_resolve_component(*cell, entries@, kind_word@) == Err::<
                T,
                ResolutionErrorModel,
            >(e@),
        },
{
    match cell {
        ObjectOrReference::Object(t) => Ok(t),
        ObjectOrReference::Ref { ref_path } => match parse_pointer(ref_path.as_str()) {
            None => Err(ResolutionError::MalformedPointer),
            Some((kind, name)) => {
                if str_eq(kind.as_str(), kind_word) {
                    match lookup(entries, name.as_str()) {
                        Some(t) => Ok(t),
                        None => Err(ResolutionError::UnknownReference { kind, name }),
                    }
                } else {
                    Err(ResolutionError::UnknownReference { kind, name })
                }
            },
        },
    }
}

/// The schema component mapping of a document; empty when the document
/// has no components section.
pub open spec fn spec_doc_schemas(doc: Document) -> Seq<(String, Schema)> {
    match doc.components {
        Some(c) => c.schemas@,
        None => Seq::empty(),
    }
}

/// The parameter component mapping of a document.
pub open spec fn spec_doc_parameters(doc: Document) -> Seq<(String, Parameter)> {
    match doc.components {
        Some(c) => c.parameters@,
        None => Seq::empty(),
    }
}

/// The response component mapping of a document.
pub open spec fn spec_doc_responses(doc: Document) -> Seq<(String, Response)> {
    match doc.components {
        Some(c) => c.responses@,
        None => Seq::empty(),
    }
}

/// One schema resolution hop: the inline schema itself, or the schema
/// named by a `#/components/schemas/<name>` pointer.
pub open spec fn spec_resolve_schema(cell: ObjectOrReference<Schema>, doc: Document) -> Result<
    Schema,
    ResolutionErrorModel,
> {
    spec_resolve_component(cell, spec_doc_schemas(doc), "schemas"@)
}

/// Resolves a schema cell against the owning document. An inline cell
/// resolves to its own value and cannot fail; a reference fails with
/// `MalformedPointer` when its pointer does not decompose into
/// `#/components/<kind>/<name>`, and with `UnknownReference` when the
/// kind is not `schemas` or the name is absent from the mapping.
pub fn resolve_schema<'a>(cell: &'a ObjectOrReference<Schema>, doc: &'a Document) -> (r: Result<
    &'a Schema,
    ResolutionError,
>)
    ensures
        match r {
            Ok(s) => spec_resolve_schema(*cell, *doc) == Ok::<Schema, ResolutionErrorModel>(*s),
            Err(e) => spec_resolve_schema(*cell, *doc) == Err::<Schema, ResolutionErrorModel>(
                e@,
            ),
        },
{
    match &doc.components {
        Some(c) => resolve_component(cell, &c.schemas, "schemas"),
        None => {
            let empty: Vec<(String, Schema)> = Vec::new();
            let r = resolve_component(cell, &empty, "schemas");
            match r {
                Ok(_) => {
                    match cell {
                        ObjectOrReference::Object(t) => Ok(t),
                        ObjectOrReference::Ref { .. } => {
                            proof {
                                assert(false);
                            }
                            Err(ResolutionError::MalformedPointer)
                        },
                    }
                },
                Err(e) => Err(e),
            }
        },
    }
}

/// Resolves a parameter cell against the owning document, as
/// [`resolve_schema`] does for schemas, with kind `parameters`.
pub fn resolve_parameter<'a>(cell: &'a ObjectOrReference<Parameter>, doc: &'a Document) -> (r:
    Result<&'a Parameter, ResolutionError>)
    ensures
        match r {
            Ok(p) => spec_resolve_component(*cell, spec_doc_parameters(*doc), "parameters"@)
                == Ok::<Parameter, ResolutionErrorModel>(*p),
            Err(e) => spec_resolve_component(*cell, spec_doc_parameters(*doc), "parameters"@)
                == Err::<Parameter, ResolutionErrorModel>(e@),
        },
{
    match &doc.components {
        Some(c) => resolve_component(cell, &c.parameters, "parameters"),
        None => {
            let empty: Vec<(String, Parameter)> = Vec::new();
            match resolve_component(cell, &empty, "parameters") {
                Ok(_) => {
                    match cell {
                        ObjectOrReference::Object(t) => Ok(t),
                        ObjectOrReference::Ref { .. } => {
                            proof {
                                assert(false);
                            }
                            Err(ResolutionError::MalformedPointer)
                        },
                    }
                },
                Err(e) => Err(e),
            }
        },
    }
}

/// Resolves a response cell against the owning document, as
/// [`resolve_schema`] does for schemas, with kind `responses`.
pub fn resolve_response<'a>(cell: &'a ObjectOrReference<Response>, doc: &'a Document) -> (r:
    Result<&'a Response, ResolutionError>)
    ensures
        match r {
            Ok(p) => spec_resolve_component(*cell, spec_doc_responses(*doc), "responses"@)
                == Ok::<Response, ResolutionErrorModel>(*p),
            Err(e) => spec_resolve_component(*cell, spec_doc_responses(*doc), "responses"@)
                == Err::<Response, ResolutionErrorModel>(e@),
        },
{
    match &doc.components {
        Some(c) => resolve_component(cell, &c.responses, "responses"),
        None => {
            let empty: Vec<(String, Response)> = Vec::new();
            match resolve_component(cell, &empty, "responses") {
                Ok(_) => {
                    match cell {
                        ObjectOrReference::Object(t) => Ok(t),
                        ObjectOrReference::Ref { .. } => {
                            proof {
                                assert(false);
                            }
                            Err(ResolutionError::MalformedPointer)
                        },
                    }
                },
                Err(e) => Err(e),
            }
        },
    }
}

/// The resolver applied to an inline cell is the identity and never
/// fails.
pub proof fn lemma_resolve_inline(s: Schema, doc: Document)
    ensures
        spec_resolve_schema(ObjectOrReference::Object(s), doc) == Ok::<
            Schema,
            ResolutionErrorModel,
        >(s),
{
}

/// A well-formed `#/components/schemas/<name>` reference resolves to
/// the entry of that name when one exists, and fails with
/// `UnknownReference` naming that kind and name when none does.
pub proof fn lemma_resolve_reference(p: String, doc: Document, name: Seq<char>)
    requires
        spec_parse_pointer(p@) == Some(("schemas"@, name)),
    ensures
        match spec_lookup(spec_doc_schemas(doc), name) {
            Some(s) => spec_resolve_schema(
                ObjectOrReference::Ref { ref_path: p },
                doc,
            ) == Ok::<Schema, ResolutionErrorModel>(s),
            None => spec_resolve_schema(ObjectOrReference::Ref { ref_path: p }, doc) == Err::<
                Schema,
                ResolutionErrorModel,
            >(ResolutionErrorModel::UnknownReference { kind: "schemas"@, name }),
        },
{
}

} // verus!
