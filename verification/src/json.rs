//! The JSON decoder and the document store type that the artifacts are
//! decoded into: `serde_json` and `elasticlunr`. Nothing in this module
//! is proved: each item states what is relied on.

use crate::source::CollectionModel;
use crate::source::SourceCollection;
use crate::source::SourceDocument;
use elasticlunr::document_store::DocumentStore;
use vstd::prelude::*;

verus! {

/// `serde_json::Value`, a parsed JSON text. Opaque here.
#[verifier::external_type_specification]
#[verifier::external_body]
pub struct ExValue(serde_json::Value);

/// `serde_json::Error`. Opaque here.
#[verifier::external_type_specification]
#[verifier::external_body]
pub struct ExJsonError(serde_json::Error);

/// The value that the decoder reads from a text, where the text is one JSON
/// value.
pub uninterp spec fn parsed_json(text: Seq<u8>) -> Option<serde_json::Value>;

/// The member of a JSON value under a key: the JSON null where the value
/// is no object or has no such key.
pub uninterp spec fn member_of(value: serde_json::Value, key: Seq<char>) -> serde_json::Value;

/// The collection that the decoder reads from a JSON value, where it takes
/// the value for a document store.
pub uninterp spec fn decoded_store(value: serde_json::Value) -> Option<CollectionModel>;

/// `serde_json::from_slice` into a `Value`: it succeeds on the texts that
/// are JSON, and on no others, and what it reads depends on the text
/// alone.
#[verifier::external_body]
pub(crate) fn parse_json(text: &[u8]) -> (r: Result<serde_json::Value, serde_json::Error>)
    ensures
        match r {
            Ok(value) => parsed_json(text@) == Some(value),
            Err(_) => parsed_json(text@) is None,
        },
{
    serde_json::from_slice(text)
}

/// Indexing of a `Value` by a key (`value[key]`), which yields the JSON
/// null where the value is no object or has no such key, and never
/// panics.
#[verifier::external_body]
pub(crate) fn json_member<'a>(value: &'a serde_json::Value, key: &str) -> (r: &'a serde_json::Value)
    ensures
        *r == member_of(*value, key@),
{
    &value[key]
}

/// `serde_json::from_value` into an
/// `elasticlunr::document_store::DocumentStore`, of which the `save` flag
/// and the `docs` are handed on, entry by entry. What is read depends on
/// the value alone. The `docs` are a `BTreeMap` from reference to a
/// `BTreeMap` from field name to text, so no reference occurs twice, and
/// no field name occurs twice in a record.
#[verifier::external_body]
pub(crate) fn decode_store(value: &serde_json::Value) -> (r: Result<SourceCollection, serde_json::Error>)
    ensures
        match r {
            Ok(collection) => decoded_store(*value) == Some(collection@) && collection@.is_map(),
            Err(_) => decoded_store(*value) is None,
        },
{
    let store: DocumentStore = serde_json::from_value(value.clone())?;
    Ok(SourceCollection {
        save: store.save,
        docs: store.docs.into_iter().map(|(reference, record)| SourceDocument {
            reference,
            fields: record.into_iter().collect(),
        }).collect(),
    })
}

} // verus!
