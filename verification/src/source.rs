//! The document collection of one corpus, as its artifact holds it: a flag
//! that says whether the documents were kept, and the documents by
//! reference, each a record of named text fields.

use crate::artifact::payload;
use crate::artifact::payload_of;
use crate::document::documents_view;
use crate::document::DocumentModel;
use crate::document::IndexedDocument;
use crate::error::StartupError;
use crate::json::decode_store;
use crate::json::decoded_store;
use crate::json::member_of;
use crate::json::parsed_json;
use crate::json::json_member;
use crate::json::parse_json;
use crate::schema::Field;
use vstd::prelude::*;

verus! {

/// One document of a collection.
#[derive(Clone, Debug, PartialEq, Eq)]
pub struct SourceDocument {
    /// The reference of the document inside its corpus.
    pub reference: String,
    /// The record: field names with their text.
    pub fields: Vec<(String, String)>,
}

/// What a `SourceDocument` holds, as text.
pub struct SourceDocumentModel {
    pub reference: Seq<char>,
    pub fields: Seq<(Seq<char>, Seq<char>)>,
}

impl View for SourceDocument {
    type V = SourceDocumentModel;

    open spec fn view(&self) -> SourceDocumentModel {
        SourceDocumentModel { reference: self.reference@, fields: self.fields.deep_view() }
    }
}

/// The document collection of one corpus.
#[derive(Clone, Debug, PartialEq, Eq)]
pub struct SourceCollection {
    /// Whether the collection kept its documents. A collection that did
    /// not is not indexed.
    pub save: bool,
    /// The documents, in the order in which they are indexed.
    pub docs: Vec<SourceDocument>,
}

/// What a `SourceCollection` holds, as text.
pub struct CollectionModel {
    pub save: bool,
    pub docs: Seq<SourceDocumentModel>,
}

impl View for SourceCollection {
    type V = CollectionModel;

    open spec fn view(&self) -> CollectionModel {
        CollectionModel { save: self.save, docs: records_view(self.docs@) }
    }
}

/// The views of a sequence of source documents.
pub open spec fn records_view(docs: Seq<SourceDocument>) -> Seq<SourceDocumentModel> {
    docs.map_values(|d: SourceDocument| d@)
}

/// No reference occurs twice.
pub open spec fn has_distinct_references(docs: Seq<SourceDocumentModel>) -> bool {
    forall|i: int, j: int|
        0 <= i < j < docs.len() ==> (#[trigger] docs[i]).reference != (#[trigger] docs[j]).reference
}

/// No field name occurs twice.
pub open spec fn has_distinct_names(fields: Seq<(Seq<char>, Seq<char>)>) -> bool {
    forall|i: int, j: int|
        0 <= i < j < fields.len() ==> (#[trigger] fields[i]).0 != (#[trigger] fields[j]).0
}

/// The text of the first field of a record that has the given name.
pub open spec fn field_value(fields: Seq<(Seq<char>, Seq<char>)>, name: Seq<char>) -> Option<
    Seq<char>,
>
    decreases fields.len(),
{
    if fields.len() == 0 {
        None
    } else if fields[0].0 == name {
        Some(fields[0].1)
    } else {
        field_value(fields.drop_first(), name)
    }
}

impl SourceDocumentModel {
    /// The text that the record gives for a field of the schema.
    pub open spec fn text(self, field: Field) -> Option<Seq<char>> {
        field_value(self.fields, field.spec_name())
    }

    /// The first of title, breadcrumbs and body that the record lacks.
    pub open spec fn missing_field(self) -> Option<Field> {
        if self.text(Field::Title) is None {
            Some(Field::Title)
        } else if self.text(Field::Breadcrumbs) is None {
            Some(Field::Breadcrumbs)
        } else if self.text(Field::Body) is None {
            Some(Field::Body)
        } else {
            None
        }
    }

    /// The record has a title, breadcrumbs and a body.
    pub open spec fn is_complete(self) -> bool {
        self.missing_field() is None
    }

    /// The document that the index holds for a complete record of the
    /// corpus `book`.
    pub open spec fn indexed(self, book: Seq<char>) -> DocumentModel {
        DocumentModel {
            book,
            section: self.reference,
            title: self.text(Field::Title)->0,
            breadcrumbs: self.text(Field::Breadcrumbs)->0,
            body: self.text(Field::Body)->0,
        }
    }
}

impl CollectionModel {
    /// Every document of the collection can be indexed: the collection is
    /// not saved, so none will be, or every record is complete.
    pub open spec fn is_indexable(self) -> bool {
        self.save ==> forall|i: int| 0 <= i < self.docs.len() ==> (#[trigger] self.docs[i]).is_complete()
    }

    /// `k` is the position of the first incomplete record.
    pub open spec fn is_first_gap(self, k: int) -> bool {
        &&& 0 <= k < self.docs.len()
        &&& !self.docs[k].is_complete()
        &&& forall|i: int| 0 <= i < k ==> (#[trigger] self.docs[i]).is_complete()
    }

    /// The first incomplete record has the given reference, and the given
    /// field is the first that it lacks.
    pub open spec fn first_gap_is(self, reference: Seq<char>, field: Field) -> bool {
        exists|k: int|
            self.is_first_gap(k) && reference == (#[trigger] self.docs[k]).reference && Some(field)
                == self.docs[k].missing_field()
    }

    /// The documents that the collection contributes to the index under
    /// the corpus identifier `book`: none where it is not saved, else one
    /// for each record, in order.
    pub open spec fn documents(self, book: Seq<char>) -> Seq<DocumentModel> {
        if self.save {
            Seq::new(self.docs.len(), |i: int| self.docs[i].indexed(book))
        } else {
            Seq::empty()
        }
    }

    /// No reference occurs twice, and no field name twice in a record.
    pub open spec fn is_map(self) -> bool {
        &&& has_distinct_references(self.docs)
        &&& forall|i: int| 0 <= i < self.docs.len() ==> has_distinct_names((#[trigger] self.docs[i]).fields)
    }
}

/// Looks a field up in a record by name; the first match counts.
pub fn find_field<'a>(fields: &'a Vec<(String, String)>, name: &str) -> (r: Option<&'a String>)
    ensures
        r is Some == field_value(fields.deep_view(), name@) is Some,
        r matches Some(text) ==> field_value(fields.deep_view(), name@) == Some(text@),
{
    let wanted = name.to_owned();
    let mut i: usize = 0;
    assert(fields.deep_view().skip(0) == fields.deep_view());
    while i < fields.len()
        invariant
            i <= fields.len(),
            wanted@ == name@,
            field_value(fields.deep_view(), name@) == field_value(
                fields.deep_view().skip(i as int),
                name@,
            ),
        decreases fields.len() - i,
    {
        let ghost rest = fields.deep_view().skip(i as int);
        assert(rest[0] == fields.deep_view()[i as int]);
        assert(rest.drop_first() == fields.deep_view().skip(i + 1));
        if fields[i].0 == wanted {
            return Some(&fields[i].1);
        }
        i += 1;
    }
    None
}

impl SourceDocument {
    /// The first of title, breadcrumbs and body that the record lacks.
    pub fn missing_field(&self) -> (r: Option<Field>)
        ensures
            r == self@.missing_field(),
    {
        if find_field(&self.fields, Field::Title.name()).is_none() {
            Some(Field::Title)
        } else if find_field(&self.fields, Field::Breadcrumbs.name()).is_none() {
            Some(Field::Breadcrumbs)
        } else if find_field(&self.fields, Field::Body.name()).is_none() {
            Some(Field::Body)
        } else {
            None
        }
    }

    /// The document that the index holds for this record of the corpus
    /// `book`, or the field that the record lacks.
    pub fn to_indexed(&self, book: &str) -> (r: Result<IndexedDocument, Field>)
        ensures
            match r {
                Ok(d) => self@.is_complete() && d@ == self@.indexed(book@),
                Err(field) => self@.missing_field() == Some(field),
            },
    {
        let title = match find_field(&self.fields, Field::Title.name()) {
            Some(text) => text.clone(),
            None => { return Err(Field::Title); },
        };
        let breadcrumbs = match find_field(&self.fields, Field::Breadcrumbs.name()) {
            Some(text) => text.clone(),
            None => { return Err(Field::Breadcrumbs); },
        };
        let body = match find_field(&self.fields, Field::Body.name()) {
            Some(text) => text.clone(),
            None => { return Err(Field::Body); },
        };
        Ok(
            IndexedDocument {
                book: book.to_owned(),
                section: self.reference.clone(),
                title,
                breadcrumbs,
                body,
            },
        )
    }
}

impl SourceCollection {
    /// The documents that the collection contributes to the index under
    /// the corpus identifier `book`. A collection that is not saved
    /// contributes none, whatever its records hold. Of a saved collection
    /// every record must be complete: the first that is not is reported
    /// with the field it lacks.
    pub fn indexed_documents(&self, book: &str) -> (r: Result<Vec<IndexedDocument>, StartupError>)
        ensures
            match r {
                Ok(documents) => {
                    &&& self@.is_indexable()
                    &&& documents_view(documents@) == self@.documents(book@)
                    &&& documents.len() == self@.documents(book@).len()
                },
                Err(StartupError::MissingField { reference, field }) => {
                    &&& self@.save
                    &&& self@.first_gap_is(reference@, field)
                },
                Err(_) => false,
            },
    {
        let mut documents: Vec<IndexedDocument> = Vec::new();
        if !self.save {
            assert(documents_view(documents@) =~= self@.documents(book@));
            return Ok(documents);
        }
        let mut i: usize = 0;
        while i < self.docs.len()
            invariant
                i <= self.docs.len(),
                self@.save,
                documents.len() == i,
                forall|j: int| 0 <= j < i ==> (#[trigger] self@.docs[j]).is_complete(),
                forall|j: int| 0 <= j < i ==> (#[trigger] documents[j])@ == self@.docs[j].indexed(book@),
            decreases self.docs.len() - i,
        {
            assert(self@.docs[i as int] == self.docs[i as int]@);
            match self.docs[i].to_indexed(book) {
                Ok(document) => {
                    documents.push(document);
                },
                Err(field) => {
                    assert(self@.is_first_gap(i as int));
                    return Err(
                        StartupError::MissingField { reference: self.docs[i].reference.clone(), field },
                    );
                },
            }
            i += 1;
        }
        assert(documents_view(documents@) =~= self@.documents(book@));
        Ok(documents)
    }
}

/// The collection that a JSON text holds: what the decoder reads from its
/// `index.documentStore` section, where the text is JSON and the decoder
/// takes the section for a document store.
pub open spec fn store_of(json: Seq<u8>) -> Option<CollectionModel> {
    match parsed_json(json) {
        Some(root) => decoded_store(member_of(member_of(root, "index"@), "documentStore"@)),
        None => None,
    }
}

/// The collection that an artifact holds: that of the JSON text between
/// its prefix and its suffix.
pub open spec fn collection_of(artifact: Seq<u8>) -> Option<CollectionModel> {
    match payload_of(artifact) {
        Some(json) => store_of(json),
        None => None,
    }
}

/// Decodes the JSON text of an artifact into the collection that its
/// `index.documentStore` section describes: `store_of` the text. A text
/// that is no JSON is refused, and so is one whose store section the
/// decoder does not take for a document store. Both are reported as
/// `StartupError::Json`.
pub fn decode_collection(json: &[u8]) -> (r: Result<SourceCollection, StartupError>)
    ensures
        match r {
            Ok(collection) => store_of(json@) == Some(collection@) && collection@.is_map(),
            Err(e) => e is Json && store_of(json@) is None,
        },
{
    let root = match parse_json(json) {
        Ok(root) => root,
        Err(e) => { return Err(StartupError::Json(e)); },
    };
    let section = json_member(json_member(&root, "index"), "documentStore");
    match decode_store(section) {
        Ok(collection) => Ok(collection),
        Err(e) => Err(StartupError::Json(e)),
    }
}

/// Reads the collection out of an artifact: strips the framing, then
/// decodes the payload. The result is `collection_of` the artifact. An
/// artifact too short for its framing is reported as
/// `StartupError::Framing`, before the decoder is asked; a payload that
/// holds no collection is reported as `StartupError::Json`.
pub fn read_collection(artifact: &[u8]) -> (r: Result<SourceCollection, StartupError>)
    ensures
        match r {
            Ok(collection) => collection_of(artifact@) == Some(collection@) && collection@.is_map(),
            Err(StartupError::Framing) => payload_of(artifact@) is None,
            Err(StartupError::Json(_)) => payload_of(artifact@) is Some && collection_of(artifact@) is None,
            Err(_) => false,
        },
{
    match payload(artifact) {
        None => Err(StartupError::Framing),
        Some(json) => decode_collection(json),
    }
}

} // verus!
