//! Building the index: every corpus in turn, then one commit.

use crate::artifact::payload_of;
use crate::backend::add_document;
use crate::backend::commit;
use crate::backend::committed_documents;
use crate::backend::create_writer;
use crate::backend::declare_keyword_field;
use crate::backend::declare_text_field;
use crate::backend::declared_fields;
use crate::backend::schema_builder;
use crate::backend::staged_documents;
use crate::backend::writer_fields;
use crate::backend::DocumentWriter;
use crate::document::documents_view;
use crate::document::named_fields_of;
use crate::document::DocumentModel;
use crate::document::IndexedDocument;
use crate::error::StartupError;
use crate::executor::SearchIndex;
use crate::schema::declared_schema;
use crate::schema::fields;
use crate::schema::has_field;
use crate::schema::lemma_field_name_is_valid;
use crate::schema::lemma_field_names_distinct;
use crate::schema::schema_fields;
use crate::schema::Field;
use crate::source::collection_of;
use crate::source::read_collection;
use crate::source::CollectionModel;
use crate::source::SourceCollection;
use vstd::prelude::*;

verus! {

/// The memory budget of the index writer, in bytes.
pub const WRITER_HEAP_BYTES: usize = 100_000_000;

/// The number of threads that index documents. The build is sequential:
/// with one thread the documents get their addresses in the order in
/// which they are added.
pub const INDEXING_THREADS: usize = 1;

/// What became of one corpus.
#[derive(Clone, Copy, Debug, PartialEq, Eq, Structural)]
pub enum CorpusOutcome {
    /// The collection is not saved: nothing was indexed.
    Skipped,
    /// The collection is saved: this many documents were indexed.
    Indexed(usize),
}

/// What becomes of a collection that can be indexed: it is skipped where
/// it is not saved, and indexed with all its documents where it is.
pub open spec fn outcome_of(collection: CollectionModel) -> CorpusOutcome {
    if collection.save {
        CorpusOutcome::Indexed(collection.docs.len() as usize)
    } else {
        CorpusOutcome::Skipped
    }
}

/// An index that is being built. Documents are staged one corpus after
/// the other; `finish` commits them all at once. Each step consumes the
/// builder and hands it back only where it succeeded, so a failed build
/// cannot be carried on.
pub struct IndexBuilder {
    writer: DocumentWriter,
    documents: Ghost<Seq<DocumentModel>>,
}

impl IndexBuilder {
    #[verifier::type_invariant]
    spec fn stages_its_documents(self) -> bool {
        &&& writer_fields(self.writer) == declared_schema()
        &&& staged_documents(self.writer) == named_fields_of(self.documents@)
        &&& committed_documents(self.writer) == Seq::<Seq<(Seq<char>, Seq<char>)>>::empty()
    }

    /// The documents staged so far, in order.
    pub closed spec fn documents(&self) -> Seq<DocumentModel> {
        self.documents@
    }

    /// The fields of the index that is built: for each its name, whether
    /// it is tokenized, and whether it is stored.
    pub closed spec fn fields(&self) -> Seq<(Seq<char>, bool, bool)> {
        writer_fields(self.writer)
    }

    /// A builder of an empty index with the fields of the schema, each
    /// declared with its name and as the schema says: tokenized or exact,
    /// and stored.
    pub fn new() -> (r: Result<IndexBuilder, StartupError>)
        ensures
            match r {
                Ok(builder) => {
                    &&& builder.documents() == Seq::<DocumentModel>::empty()
                    &&& builder.fields() == declared_schema()
                },
                Err(e) => e is Index,
            },
    {
        let all = fields();
        let mut schema = schema_builder();
        let mut i: usize = 0;
        let ghost entry = |f: Field| (f.spec_name(), f.spec_is_tokenized(), f.spec_is_stored());
        while i < all.len()
            invariant
                i <= all.len(),
                all@ == schema_fields(),
                entry == |f: Field| (f.spec_name(), f.spec_is_tokenized(), f.spec_is_stored()),
                declared_fields(schema) == all@.take(i as int).map_values(entry),
            decreases all.len() - i,
        {
            let field = all[i];
            proof {
                lemma_field_name_is_valid(field);
                let declared = all@.take(i as int).map_values(entry);
                if has_field(declared, field.spec_name()) {
                    let k = choose|k: int| 0 <= k < declared.len() && (#[trigger] declared[k]).0 == field.spec_name();
                    lemma_field_names_distinct(all@[k], field);
                }
                assert(all@.take(i + 1).map_values(entry) == declared.push(entry(field)));
            }
            if field.is_tokenized() {
                declare_text_field(&mut schema, field.name());
            } else {
                declare_keyword_field(&mut schema, field.name());
            }
            i += 1;
        }
        assert(all@.take(all.len() as int) == all@);
        match create_writer(schema, INDEXING_THREADS, WRITER_HEAP_BYTES) {
            Ok(writer) => {
                let ghost none = Seq::<DocumentModel>::empty();
                assert(named_fields_of(none) == Seq::<Seq<(Seq<char>, Seq<char>)>>::empty());
                Ok(IndexBuilder { writer, documents: Ghost(none) })
            },
            Err(e) => Err(StartupError::Index(e)),
        }
    }

    /// Stages one document behind those staged before.
    pub fn add_document(self, document: &IndexedDocument) -> (r: Result<IndexBuilder, StartupError>)
        ensures
            match r {
                Ok(builder) => {
                    &&& builder.documents() == self.documents().push(document@)
                    &&& builder.fields() == declared_schema()
                },
                Err(e) => e is Index,
            },
    {
        proof {
            use_type_invariant(&self);
        }
        let IndexBuilder { mut writer, documents } = self;
        let named = document.named_fields();
        match add_document(&mut writer, &named) {
            Ok(()) => {
                let ghost longer = documents@.push(document@);
                assert(named_fields_of(longer) == named_fields_of(documents@).push(
                    document@.named_fields(),
                ));
                Ok(IndexBuilder { writer, documents: Ghost(longer) })
            },
            Err(e) => Err(StartupError::Index(e)),
        }
    }

    /// Stages the documents of one collection under the corpus identifier
    /// `book`. A collection that is not saved is skipped, which is no
    /// failure. A saved collection is checked in full before its first
    /// document is staged.
    pub fn add_collection(self, book: &str, collection: &SourceCollection) -> (r: Result<
        (IndexBuilder, CorpusOutcome),
        StartupError,
    >)
        ensures
            !collection@.save ==> r is Ok,
            !collection@.is_indexable() ==> r is Err,
            match r {
                Ok((builder, outcome)) => {
                    &&& collection@.is_indexable()
                    &&& builder.documents() == self.documents() + collection@.documents(book@)
                    &&& builder.fields() == declared_schema()
                    &&& outcome == outcome_of(collection@)
                },
                Err(StartupError::MissingField { reference, field }) => {
                    &&& !collection@.is_indexable()
                    &&& collection@.first_gap_is(reference@, field)
                },
                Err(e) => collection@.is_indexable() && collection@.save && e is Index,
            },
    {
        let documents = collection.indexed_documents(book)?;
        if !collection.save {
            assert(self.documents() + collection@.documents(book@) == self.documents());
            proof {
                use_type_invariant(&self);
            }
            return Ok((self, CorpusOutcome::Skipped));
        }
        assert(collection@.docs.len() == collection.docs.len());
        let builder = self.add_documents(&documents)?;
        Ok((builder, CorpusOutcome::Indexed(collection.docs.len())))
    }

    /// Stages documents in order.
    pub fn add_documents(self, documents: &Vec<IndexedDocument>) -> (r: Result<IndexBuilder, StartupError>)
        ensures
            match r {
                Ok(builder) => {
                    &&& builder.documents() == self.documents() + documents_view(documents@)
                    &&& builder.fields() == declared_schema()
                },
                Err(e) => e is Index,
            },
    {
        proof {
            use_type_invariant(&self);
        }
        let mut builder = self;
        let mut i: usize = 0;
        assert(documents_view(documents@).take(0) == Seq::<DocumentModel>::empty());
        assert(self.documents() + Seq::<DocumentModel>::empty() == self.documents());
        while i < documents.len()
            invariant
                i <= documents.len(),
                builder.fields() == declared_schema(),
                builder.documents() == self.documents() + documents_view(documents@).take(i as int),
            decreases documents.len() - i,
        {
            assert(documents_view(documents@).take(i + 1) == documents_view(documents@).take(
                i as int,
            ).push(documents[i as int]@));
            assert((self.documents() + documents_view(documents@).take(i as int)).push(
                documents[i as int]@,
            ) == self.documents() + documents_view(documents@).take(i + 1));
            builder = builder.add_document(&documents[i])?;
            i += 1;
        }
        assert(documents_view(documents@).take(documents.len() as int) == documents_view(documents@));
        Ok(builder)
    }

    /// Reads the collection out of an artifact and stages its documents
    /// under the corpus identifier `book`: `add_collection` of
    /// `collection_of` the artifact. An artifact that holds no collection
    /// is refused, as `Framing` where it is too short for its frame and
    /// as `Json` otherwise.
    pub fn add_corpus(self, book: &str, artifact: &[u8]) -> (r: Result<
        (IndexBuilder, CorpusOutcome),
        StartupError,
    >)
        ensures
            match collection_of(artifact@) {
                None => match r {
                    Err(StartupError::Framing) => payload_of(artifact@) is None,
                    Err(StartupError::Json(_)) => payload_of(artifact@) is Some,
                    _ => false,
                },
                Some(collection) => match r {
                    Ok((builder, outcome)) => {
                        &&& collection.is_indexable()
                        &&& builder.documents() == self.documents() + collection.documents(book@)
                        &&& builder.fields() == declared_schema()
                        &&& outcome == outcome_of(collection)
                    },
                    Err(StartupError::MissingField { reference, field }) => {
                        &&& !collection.is_indexable()
                        &&& collection.first_gap_is(reference@, field)
                    },
                    Err(e) => collection.is_indexable() && collection.save && e is Index,
                },
            },
            collection_of(artifact@) matches Some(collection) && !collection.save ==> r is Ok,
    {
        let collection = match read_collection(artifact) {
            Ok(collection) => collection,
            Err(e) => { return Err(e); },
        };
        self.add_collection(book, &collection)
    }

    /// Commits what was staged and opens the committed index.
    pub fn finish(self) -> (r: Result<SearchIndex, StartupError>)
        ensures
            match r {
                Ok(index) => {
                    &&& index.documents() == self.documents()
                    &&& index.fields() == declared_schema()
                    &&& index.stores_all()
                },
                Err(e) => e is Index,
            },
    {
        proof {
            use_type_invariant(&self);
        }
        let IndexBuilder { mut writer, documents } = self;
        match commit(&mut writer) {
            Ok(()) => {},
            Err(e) => { return Err(StartupError::Index(e)); },
        }
        match SearchIndex::open(&writer, documents) {
            Ok(index) => Ok(index),
            Err(e) => Err(StartupError::Index(e)),
        }
    }
}

/// One corpus as it comes from outside: its identifier and the bytes of
/// its artifact.
#[derive(Clone, Debug, PartialEq, Eq)]
pub struct Corpus {
    pub book: String,
    pub artifact: Vec<u8>,
}

/// One corpus with its collection decoded.
#[derive(Clone, Debug, PartialEq, Eq)]
pub struct LoadedCorpus {
    pub book: String,
    pub collection: SourceCollection,
}

/// What a `LoadedCorpus` holds, as text.
pub struct CorpusModel {
    pub book: Seq<char>,
    pub collection: CollectionModel,
}

impl View for LoadedCorpus {
    type V = CorpusModel;

    open spec fn view(&self) -> CorpusModel {
        CorpusModel { book: self.book@, collection: self.collection@ }
    }
}

impl CorpusModel {
    /// The documents that the corpus contributes to the index.
    pub open spec fn documents(self) -> Seq<DocumentModel> {
        self.collection.documents(self.book)
    }
}

/// The views of a sequence of loaded corpora.
pub open spec fn corpora_view(corpora: Seq<LoadedCorpus>) -> Seq<CorpusModel> {
    corpora.map_values(|c: LoadedCorpus| c@)
}

/// Every corpus can be indexed.
pub open spec fn all_indexable(corpora: Seq<CorpusModel>) -> bool {
    forall|i: int| 0 <= i < corpora.len() ==> (#[trigger] corpora[i]).collection.is_indexable()
}

/// The documents of an index built from the given corpora: those of each
/// corpus, corpus after corpus.
pub open spec fn corpora_documents(corpora: Seq<CorpusModel>) -> Seq<DocumentModel>
    decreases corpora.len(),
{
    if corpora.len() == 0 {
        Seq::empty()
    } else {
        corpora_documents(corpora.drop_last()) + corpora.last().documents()
    }
}

/// A corpus whose collection is not saved contributes no document to the
/// index, and whether the others can be indexed does not depend on it: the
/// build goes as if the corpus were not there.
pub proof fn lemma_unsaved_corpus_contributes_nothing(corpora: Seq<CorpusModel>, i: int)
    requires
        0 <= i < corpora.len(),
        !corpora[i].collection.save,
    ensures
        corpora[i].documents() == Seq::<DocumentModel>::empty(),
        corpora_documents(corpora) == corpora_documents(corpora.remove(i)),
        all_indexable(corpora) == all_indexable(corpora.remove(i)),
    decreases corpora.len(),
{
    let rest = corpora.remove(i);
    if i == corpora.len() - 1 {
        assert(rest == corpora.drop_last());
        assert(corpora_documents(corpora.drop_last()) + Seq::<DocumentModel>::empty()
            == corpora_documents(corpora.drop_last()));
    } else {
        lemma_unsaved_corpus_contributes_nothing(corpora.drop_last(), i);
        assert(rest.drop_last() == corpora.drop_last().remove(i));
        assert(rest.last() == corpora.last());
    }
    if all_indexable(corpora) {
        assert forall|j: int| 0 <= j < rest.len() implies (#[trigger] rest[j]).collection.is_indexable() by {
            if j < i {
                assert(rest[j] == corpora[j]);
            } else {
                assert(rest[j] == corpora[j + 1]);
            }
        }
    }
    if all_indexable(rest) {
        assert forall|j: int| 0 <= j < corpora.len() implies (#[trigger] corpora[j]).collection.is_indexable() by {
            if j < i {
                assert(corpora[j] == rest[j]);
            } else if j > i {
                assert(corpora[j] == rest[j - 1]);
            }
        }
    }
}

/// The first corpus that cannot be indexed has its first incomplete
/// record under the given reference, and the given field is the first
/// that the record lacks.
pub open spec fn reports_first_gap(corpora: Seq<CorpusModel>, reference: Seq<char>, field: Field) -> bool {
    exists|k: int|
        0 <= k < corpora.len() && !(#[trigger] corpora[k]).collection.is_indexable()
            && corpora[k].collection.first_gap_is(reference, field) && forall|j: int|
            0 <= j < k ==> (#[trigger] corpora[j]).collection.is_indexable()
}

/// Builds the index from decoded corpora. Every collection is checked
/// before the first document is staged: one saved collection with an
/// incomplete record fails the build, whatever the others hold.
pub fn index_collections(corpora: &Vec<LoadedCorpus>) -> (r: Result<SearchIndex, StartupError>)
    ensures
        !all_indexable(corpora_view(corpora@)) <==> r matches Err(StartupError::MissingField { .. }),
        match r {
            Ok(index) => {
                &&& index.documents() == corpora_documents(corpora_view(corpora@))
                &&& index.fields() == declared_schema()
                &&& index.stores_all()
            },
            Err(StartupError::MissingField { reference, field }) => reports_first_gap(
                corpora_view(corpora@),
                reference@,
                field,
            ),
            Err(e) => e is Index,
        },
{
    let ghost models = corpora_view(corpora@);
    let mut batches: Vec<Vec<IndexedDocument>> = Vec::new();
    let mut i: usize = 0;
    while i < corpora.len()
        invariant
            i <= corpora.len(),
            models == corpora_view(corpora@),
            batches.len() == i,
            forall|j: int| 0 <= j < i ==> (#[trigger] models[j]).collection.is_indexable(),
            forall|j: int| 0 <= j < i ==> documents_view((#[trigger] batches[j])@) == models[j].documents(),
        decreases corpora.len() - i,
    {
        assert(models[i as int] == corpora[i as int]@);
        let batch = match corpora[i].collection.indexed_documents(corpora[i].book.as_str()) {
            Ok(batch) => batch,
            Err(e) => {
                assert(!models[i as int].collection.is_indexable());
                return Err(e);
            },
        };
        batches.push(batch);
        i += 1;
    }
    let mut builder = match IndexBuilder::new() {
        Ok(builder) => builder,
        Err(e) => { return Err(e); },
    };
    let mut k: usize = 0;
    assert(models.take(0) == Seq::<CorpusModel>::empty());
    while k < batches.len()
        invariant
            k <= batches.len(),
            models == corpora_view(corpora@),
            batches.len() == models.len(),
            all_indexable(models),
            forall|j: int| 0 <= j < batches.len() ==> documents_view((#[trigger] batches[j])@) == models[j].documents(),
            builder.documents() == corpora_documents(models.take(k as int)),
        decreases batches.len() - k,
    {
        assert(models.take(k + 1).drop_last() == models.take(k as int));
        assert(models.take(k + 1).last() == models[k as int]);
        builder = match builder.add_documents(&batches[k]) {
            Ok(builder) => builder,
            Err(e) => { return Err(e); },
        };
        k += 1;
    }
    assert(models.take(batches.len() as int) == models);
    builder.finish()
}

/// Every artifact holds a collection.
pub open spec fn all_readable(corpora: Seq<Corpus>) -> bool {
    forall|i: int| 0 <= i < corpora.len() ==> collection_of((#[trigger] corpora[i]).artifact@) is Some
}

/// The corpus at `k` is the first whose artifact holds no collection.
pub open spec fn is_first_unreadable(corpora: Seq<Corpus>, k: int) -> bool {
    &&& 0 <= k < corpora.len()
    &&& collection_of(corpora[k].artifact@) is None
    &&& forall|j: int| 0 <= j < k ==> collection_of((#[trigger] corpora[j]).artifact@) is Some
}

/// The corpora as their artifacts are read: each with the collection
/// that its artifact holds.
pub open spec fn decoded_corpora(corpora: Seq<Corpus>) -> Seq<CorpusModel> {
    Seq::new(
        corpora.len(),
        |i: int| CorpusModel { book: corpora[i].book@, collection: collection_of(corpora[i].artifact@)->0 },
    )
}

/// Builds the index from the artifacts of the corpora, in the given
/// order: the index of `decoded_corpora`. The build is all or nothing.
/// The first artifact that holds no collection ends it, before anything
/// is indexed: as `Framing` where the artifact is too short for its
/// frame, as `Json` otherwise. Where every artifact is read, a saved
/// collection with an incomplete record ends it as `MissingField`, which
/// names the first such record of the first such corpus.
pub fn build_index(corpora: &Vec<Corpus>) -> (r: Result<SearchIndex, StartupError>)
    ensures
        !all_readable(corpora@) <==> (r matches Err(StartupError::Framing) || r matches Err(
            StartupError::Json(_),
        )),
        all_readable(corpora@) && !all_indexable(decoded_corpora(corpora@)) <==> r matches Err(
            StartupError::MissingField { .. },
        ),
        match r {
            Ok(index) => {
                &&& index.documents() == corpora_documents(decoded_corpora(corpora@))
                &&& index.fields() == declared_schema()
                &&& index.stores_all()
            },
            Err(StartupError::Framing) => exists|k: int|
                is_first_unreadable(corpora@, k) && payload_of((#[trigger] corpora[k]).artifact@) is None,
            Err(StartupError::Json(_)) => exists|k: int|
                is_first_unreadable(corpora@, k) && payload_of((#[trigger] corpora[k]).artifact@) is Some,
            Err(StartupError::MissingField { reference, field }) => reports_first_gap(
                decoded_corpora(corpora@),
                reference@,
                field,
            ),
            Err(StartupError::Index(_)) => true,
        },
{
    let mut loaded: Vec<LoadedCorpus> = Vec::new();
    let mut i: usize = 0;
    while i < corpora.len()
        invariant
            i <= corpora.len(),
            loaded.len() == i,
            forall|j: int| 0 <= j < i ==> collection_of((#[trigger] corpora[j]).artifact@) is Some,
            forall|j: int|
                0 <= j < i ==> (#[trigger] loaded[j])@ == decoded_corpora(corpora@)[j],
        decreases corpora.len() - i,
    {
        let collection = match read_collection(corpora[i].artifact.as_slice()) {
            Ok(collection) => collection,
            Err(e) => {
                assert(is_first_unreadable(corpora@, i as int));
                return Err(e);
            },
        };
        loaded.push(LoadedCorpus { book: corpora[i].book.clone(), collection });
        i += 1;
    }
    assert(corpora_view(loaded@) == decoded_corpora(corpora@));
    index_collections(&loaded)
}

} // verus!
