//! The search engine that holds the index: `tantivy`. Nothing in this
//! module is proved. Each item states what the rest of the library relies
//! on from the engine; the names below stand for what the engine holds.
//!
//! A document is modelled by its field values in the order in which they
//! were handed over, each with the name of its field. Every schema that
//! this module builds holds stored text fields only, so what the engine
//! keeps of a document is the document.

use crate::ranking::have_distinct_addresses;
use crate::ranking::Hit;
use crate::query::is_admitted;
use crate::schema::has_field;
use tantivy::collector::TopDocs;
use tantivy::query::QueryParser;
use tantivy::schema::SchemaBuilder;
use tantivy::schema::STORED;
use tantivy::schema::STRING;
use tantivy::schema::TEXT;
use tantivy::Searcher;
use tantivy::TantivyDocument;
use tantivy::TantivyError;
use vstd::prelude::*;
use vstd::utf8::encode_utf8;

verus! {

/// `tantivy::schema::SchemaBuilder`. Opaque here.
#[verifier::external_type_specification]
#[verifier::external_body]
pub struct ExSchemaBuilder(SchemaBuilder);

/// `tantivy::Searcher`, an immutable snapshot of a committed index. Opaque
/// here.
#[verifier::external_type_specification]
#[verifier::external_body]
pub struct ExSearcher(Searcher);

/// `tantivy::query::QueryParser`. Opaque here.
#[verifier::external_type_specification]
#[verifier::external_body]
pub struct ExQueryParser(QueryParser);

/// `tantivy::TantivyError`. Opaque here.
#[verifier::external_type_specification]
#[verifier::external_body]
pub struct ExTantivyError(TantivyError);

/// `tantivy::query::QueryParserError`. Opaque here.
#[verifier::external_type_specification]
#[verifier::external_body]
pub struct ExQueryParserError(tantivy::query::QueryParserError);

/// A `tantivy::IndexWriter` on an index of its own, which lives in memory.
/// The type is generic over a trait of the engine, which the verifier does
/// not take as a declared type, so it is held here.
#[verifier::external_body]
pub struct DocumentWriter {
    inner: tantivy::IndexWriter,
}

/// A compiled query, as `QueryParser::parse_query` returns it: a boxed
/// `dyn tantivy::query::Query`, which the verifier cannot hold in a field
/// that it reads.
#[verifier::external_body]
pub struct ParsedQuery {
    compiled: Box<dyn tantivy::query::Query>,
}

/// The fields declared in a schema builder, in order: the name of each,
/// whether it is tokenized, and whether it is stored.
pub uninterp spec fn declared_fields(builder: SchemaBuilder) -> Seq<(Seq<char>, bool, bool)>;

/// The fields of the schema that a writer's index was made with.
pub uninterp spec fn writer_fields(writer: DocumentWriter) -> Seq<(Seq<char>, bool, bool)>;

/// The fields of the schema of a searcher's index.
pub uninterp spec fn searcher_fields(searcher: Searcher) -> Seq<(Seq<char>, bool, bool)>;

/// The documents handed to a writer since it was made, in order.
pub uninterp spec fn staged_documents(writer: DocumentWriter) -> Seq<Seq<(Seq<char>, Seq<char>)>>;

/// The documents of a writer's index as of its last commit.
pub uninterp spec fn committed_documents(writer: DocumentWriter) -> Seq<Seq<(Seq<char>, Seq<char>)>>;

/// The documents that a searcher can read, by address (segment ordinal,
/// document id).
pub uninterp spec fn stored_documents(searcher: Searcher) -> Map<(u32, u32), Seq<(Seq<char>, Seq<char>)>>;

/// The JSON text that the engine writes for a document: an object that
/// maps each field name to the array of the field's values.
pub uninterp spec fn document_json(fields: Seq<(Seq<char>, Seq<char>)>) -> Seq<char>;

/// The fields of the schema that a parser was made with.
pub uninterp spec fn parser_fields(parser: QueryParser) -> Seq<(Seq<char>, bool, bool)>;

/// The names of the fields that a parser matches a term without a field
/// against.
pub uninterp spec fn parser_defaults(parser: QueryParser) -> Seq<Seq<char>>;

/// Whether a parser takes terms written side by side as all required.
pub uninterp spec fn parser_is_conjunctive(parser: QueryParser) -> bool;

/// Whether a parser is as `QueryParser::for_index` makes it but for its
/// reading of terms side by side: with the tokenizers of its index, and
/// with neither boosts nor fuzzy fields.
pub uninterp spec fn parser_is_plain(parser: QueryParser) -> bool;

/// The query that a raw text is compiled to, where it is taken for a
/// query at all, by a parser made with the given fields, default fields,
/// and reading of terms side by side, and is plain otherwise: these three
/// say all that a plain parser was made with.
pub uninterp spec fn compiled_query(
    fields: Seq<(Seq<char>, bool, bool)>,
    defaults: Seq<Seq<char>>,
    conjunctive: bool,
    raw: Seq<char>,
) -> Option<ParsedQuery>;

/// The hits that the collector hands back for a compiled query on a
/// searcher, asked for no more than `limit` of them, where the search
/// succeeds: the best matches of the query, best first.
pub uninterp spec fn collected_hits(searcher: Searcher, query: ParsedQuery, limit: nat) -> Seq<Hit>;

/// `Schema::builder`: a builder without fields.
#[verifier::external_body]
pub(crate) fn schema_builder() -> (builder: SchemaBuilder)
    ensures
        declared_fields(builder) == Seq::<(Seq<char>, bool, bool)>::empty(),
{
    tantivy::schema::Schema::builder()
}

/// `SchemaBuilder::add_text_field` with the options `STRING | STORED`:
/// the text is indexed as one exact term and stored. The engine panics on
/// an empty name, on a name that starts with `-`, and on a name that is
/// declared already.
#[verifier::external_body]
pub(crate) fn declare_keyword_field(builder: &mut SchemaBuilder, name: &str)
    requires
        name@.len() > 0,
        name@[0] != '-',
        !has_field(declared_fields(*old(builder)), name@),
    ensures
        declared_fields(*final(builder)) == declared_fields(*old(builder)).push((name@, false, true)),
{
    builder.add_text_field(name, STRING | STORED);
}

/// `SchemaBuilder::add_text_field` with the options `TEXT | STORED`: the
/// text is tokenized, indexed with positions, and stored. The engine
/// panics on the same names as for `declare_keyword_field`.
#[verifier::external_body]
pub(crate) fn declare_text_field(builder: &mut SchemaBuilder, name: &str)
    requires
        name@.len() > 0,
        name@[0] != '-',
        !has_field(declared_fields(*old(builder)), name@),
    ensures
        declared_fields(*final(builder)) == declared_fields(*old(builder)).push((name@, true, true)),
{
    builder.add_text_field(name, TEXT | STORED);
}

/// `tantivy::IndexBuilder::create_in_ram` on the schema of the builder, then
/// `Index::writer_with_num_threads` on the new index, with the given
/// number of indexing threads and memory budget. The index has the
/// fields of the builder; it is new, so nothing is staged and nothing
/// committed. The engine divides the budget by the number of threads.
#[verifier::external_body]
pub(crate) fn create_writer(builder: SchemaBuilder, threads: usize, heap_bytes: usize) -> (r: Result<
    DocumentWriter,
    TantivyError,
>)
    requires
        threads >= 1,
    ensures
        r matches Ok(writer) ==> {
            &&& writer_fields(writer) == declared_fields(builder)
            &&& staged_documents(writer) == Seq::<Seq<(Seq<char>, Seq<char>)>>::empty()
            &&& committed_documents(writer) == Seq::<Seq<(Seq<char>, Seq<char>)>>::empty()
        },
{
    let index = tantivy::Index::builder().schema(builder.build()).create_in_ram()?;
    Ok(DocumentWriter { inner: index.writer_with_num_threads(threads, heap_bytes)? })
}

/// `IndexWriter::add_document`, on a document that holds the given text
/// for each named field (`Schema::get_field`, `TantivyDocument::add_text`).
/// Where it succeeds the document is staged behind those staged before.
/// After a failure nothing is claimed of the writer.
#[verifier::external_body]
pub(crate) fn add_document(writer: &mut DocumentWriter, fields: &Vec<(String, String)>) -> (r: Result<
    (),
    TantivyError,
>)
    ensures
        r is Ok ==> {
            &&& staged_documents(*final(writer)) == staged_documents(*old(writer)).push(
                fields.deep_view(),
            )
            &&& committed_documents(*final(writer)) == committed_documents(*old(writer))
            &&& writer_fields(*final(writer)) == writer_fields(*old(writer))
        },
{
    let schema = writer.inner.index().schema();
    let mut document = TantivyDocument::new();
    for (name, text) in fields.iter() {
        document.add_text(schema.get_field(name)?, text);
    }
    writer.inner.add_document(document).map(|_| ())
}

/// `IndexWriter::commit`: where it succeeds, every document staged so far
/// is published. After a failure nothing is claimed of the writer.
#[verifier::external_body]
pub(crate) fn commit(writer: &mut DocumentWriter) -> (r: Result<(), TantivyError>)
    ensures
        r is Ok ==> {
            &&& staged_documents(*final(writer)) == staged_documents(*old(writer))
            &&& committed_documents(*final(writer)) == staged_documents(*old(writer))
            &&& writer_fields(*final(writer)) == writer_fields(*old(writer))
        },
{
    writer.inner.commit().map(|_| ())
}

/// Every document of the sequence is held at some address.
pub open spec fn holds_each(
    stored: Map<(u32, u32), Seq<(Seq<char>, Seq<char>)>>,
    documents: Seq<Seq<(Seq<char>, Seq<char>)>>,
) -> bool {
    forall|i: int|
        0 <= i < documents.len() ==> exists|address: (u32, u32)|
            stored.dom().contains(address) && #[trigger] stored[address] == #[trigger] documents[i]
}

/// `Index::reader` on the writer's index and `IndexReader::searcher`: a
/// snapshot of the last commit, with the schema of the index. Every
/// document that the searcher can read is one of the committed
/// documents, and every committed document can be read at some address.
#[verifier::external_body]
pub(crate) fn open_searcher(writer: &DocumentWriter) -> (r: Result<Searcher, TantivyError>)
    ensures
        r matches Ok(searcher) ==> searcher_fields(searcher) == writer_fields(*writer),
        r matches Ok(searcher) ==> forall|address: (u32, u32)|
            stored_documents(searcher).dom().contains(address) ==> committed_documents(
                *writer,
            ).contains(#[trigger] stored_documents(searcher)[address]),
        r matches Ok(searcher) ==> holds_each(stored_documents(searcher), committed_documents(*writer)),
{
    Ok(writer.inner.index().reader()?.searcher())
}

/// `Searcher::clone`: another handle to the same snapshot. A searcher is
/// a counted reference to its snapshot, so the clone is the searcher.
#[verifier::external_body]
pub(crate) fn share_searcher(searcher: &Searcher) -> (r: Searcher)
    ensures
        r == *searcher,
{
    searcher.clone()
}

/// `QueryParser::for_index` on the searcher's index, with the named
/// fields as default fields (`Schema::get_field`). Making the parser
/// cannot fail; looking a field up fails where the schema has none of
/// that name, and there only. The parser is plain, has the schema of the
/// index and the default fields as given, and takes terms side by side
/// as alternatives.
#[verifier::external_body]
pub(crate) fn query_parser(searcher: &Searcher, default_fields: &Vec<String>) -> (r: Result<
    QueryParser,
    TantivyError,
>)
    ensures
        r is Ok <==> forall|i: int|
            0 <= i < default_fields.len() ==> has_field(
                searcher_fields(*searcher),
                (#[trigger] default_fields[i])@,
            ),
        r matches Ok(parser) ==> {
            &&& parser_is_plain(parser)
            &&& parser_fields(parser) == searcher_fields(*searcher)
            &&& parser_defaults(parser) == default_fields.deep_view()
            &&& !parser_is_conjunctive(parser)
        },
{
    let mut fields = Vec::new();
    for name in default_fields.iter() {
        fields.push(searcher.schema().get_field(name)?);
    }
    Ok(QueryParser::for_index(searcher.index(), fields))
}

/// `QueryParser::set_conjunction_by_default`: from now on terms written
/// side by side must all match. Nothing else of the parser changes.
#[verifier::external_body]
pub(crate) fn match_all_terms(parser: &mut QueryParser)
    ensures
        parser_is_conjunctive(*final(parser)),
        parser_is_plain(*final(parser)) == parser_is_plain(*old(parser)),
        parser_fields(*final(parser)) == parser_fields(*old(parser)),
        parser_defaults(*final(parser)) == parser_defaults(*old(parser)),
{
    parser.set_conjunction_by_default();
}

/// `QueryParser::parse_query`. Parsing reads the parser and the text and
/// nothing else, so its outcome is named: it succeeds on the texts that
/// the parser takes for a query, and gives the query that a plain parser
/// of these fields, default fields and reading of terms compiles them to.
/// The grammar fails beyond recovery on a `*` behind a sign and white
/// space; it parses the inside of each group twice, and reads what
/// follows a `NOT` by a call of itself, without a bound. Texts that are
/// not admitted are left out.
#[verifier::external_body]
pub(crate) fn parse_query(parser: &QueryParser, raw: &str) -> (r: Result<
    ParsedQuery,
    tantivy::query::QueryParserError,
>)
    requires
        parser_is_plain(*parser),
        is_admitted(encode_utf8(raw@)),
    ensures
        match r {
            Ok(query) => compiled_query(
                parser_fields(*parser),
                parser_defaults(*parser),
                parser_is_conjunctive(*parser),
                raw@,
            ) == Some(query),
            Err(_) => compiled_query(
                parser_fields(*parser),
                parser_defaults(*parser),
                parser_is_conjunctive(*parser),
                raw@,
            ) is None,
        },
{
    parser.parse_query(raw).map(|compiled| ParsedQuery { compiled })
}

/// `Searcher::search` with the collector `TopDocs::with_limit(limit)`,
/// each hit given as the bits of its score and its address. A searcher
/// is a snapshot that never changes and the collector is made anew for
/// the call, so what a successful search hands back is named: it depends
/// on the searcher, the query and the limit alone. No more hits than the
/// limit come back, every hit addresses a document of the searcher, and
/// no two address the same: the collector sees each document once.
/// The collector sorts by a partial comparison of scores, so nothing is
/// claimed of the order: the caller checks it. The collector panics on a
/// limit of 0 and allocates room for twice the limit.
#[verifier::external_body]
pub(crate) fn top_hits(searcher: &Searcher, query: &ParsedQuery, limit: usize) -> (r: Result<
    Vec<Hit>,
    TantivyError,
>)
    requires
        1 <= limit <= 1000,
    ensures
        r matches Ok(hits) ==> hits@ == collected_hits(*searcher, *query, limit as nat),
        r matches Ok(hits) ==> hits.len() <= limit,
        r matches Ok(hits) ==> have_distinct_addresses(hits@),
        r matches Ok(hits) ==> forall|i: int|
            0 <= i < hits.len() ==> stored_documents(*searcher).dom().contains(
                ((#[trigger] hits[i]).segment, hits[i].doc),
            ),
{
    let found = searcher.search(&query.compiled, &TopDocs::with_limit(limit))?;
    Ok(found.into_iter().map(|(score, address)| Hit {
        score_bits: score.to_bits(),
        segment: address.segment_ord,
        doc: address.doc_id,
    }).collect())
}

/// `Searcher::doc` at an address, then `Document::to_json` on what it
/// returns: the JSON text of the stored document. `Searcher::doc` indexes
/// its segments by the ordinal, so the address must be one of the
/// searcher's.
#[verifier::external_body]
pub(crate) fn stored_json(searcher: &Searcher, segment: u32, doc: u32) -> (r: Result<
    String,
    TantivyError,
>)
    requires
        stored_documents(*searcher).dom().contains((segment, doc)),
    ensures
        r matches Ok(json) ==> json@ == document_json(stored_documents(*searcher)[(segment, doc)]),
{
    let document: TantivyDocument = searcher.doc(tantivy::DocAddress::new(segment, doc))?;
    Ok(tantivy::Document::to_json(&document, searcher.schema()))
}

} // verus!
