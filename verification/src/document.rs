//! The unit that the index holds: one document with a value for each field
//! of the schema.

use crate::schema::Field;
use vstd::prelude::*;

verus! {

/// A document of the index.
#[derive(Clone, Debug, PartialEq, Eq)]
pub struct IndexedDocument {
    pub book: String,
    pub section: String,
    pub title: String,
    pub breadcrumbs: String,
    pub body: String,
}

/// What an `IndexedDocument` holds, as text.
pub struct DocumentModel {
    pub book: Seq<char>,
    pub section: Seq<char>,
    pub title: Seq<char>,
    pub breadcrumbs: Seq<char>,
    pub body: Seq<char>,
}

impl View for IndexedDocument {
    type V = DocumentModel;

    open spec fn view(&self) -> DocumentModel {
        DocumentModel {
            book: self.book@,
            section: self.section@,
            title: self.title@,
            breadcrumbs: self.breadcrumbs@,
            body: self.body@,
        }
    }
}

impl DocumentModel {
    /// The document as the index takes it: each field's name with its
    /// value, in schema order.
    pub open spec fn named_fields(self) -> Seq<(Seq<char>, Seq<char>)> {
        seq![
            (Field::Book.spec_name(), self.book),
            (Field::Section.spec_name(), self.section),
            (Field::Title.spec_name(), self.title),
            (Field::Breadcrumbs.spec_name(), self.breadcrumbs),
            (Field::Body.spec_name(), self.body),
        ]
    }
}

/// The named fields of each document of a sequence.
pub open spec fn named_fields_of(documents: Seq<DocumentModel>) -> Seq<Seq<(Seq<char>, Seq<char>)>> {
    documents.map_values(|d: DocumentModel| d.named_fields())
}

/// The views of a sequence of documents.
pub open spec fn documents_view(documents: Seq<IndexedDocument>) -> Seq<DocumentModel> {
    documents.map_values(|d: IndexedDocument| d@)
}

impl IndexedDocument {
    /// The document as the index takes it: each field's name with its
    /// value, in schema order.
    pub fn named_fields(&self) -> (r: Vec<(String, String)>)
        ensures
            r.deep_view() == self@.named_fields(),
    {
        let mut fields: Vec<(String, String)> = Vec::new();
        fields.push((Field::Book.name().to_owned(), self.book.clone()));
        fields.push((Field::Section.name().to_owned(), self.section.clone()));
        fields.push((Field::Title.name().to_owned(), self.title.clone()));
        fields.push((Field::Breadcrumbs.name().to_owned(), self.breadcrumbs.clone()));
        fields.push((Field::Body.name().to_owned(), self.body.clone()));
        assert(fields.deep_view() =~= self@.named_fields());
        fields
    }
}

} // verus!
