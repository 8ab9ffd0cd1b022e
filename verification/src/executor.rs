//! The committed index and the worker that answers queries against it.

use crate::backend::collected_hits;
use crate::backend::committed_documents;
use crate::backend::compiled_query;
use crate::backend::parser_defaults;
use crate::backend::parser_fields;
use crate::backend::parser_is_conjunctive;
use crate::backend::parser_is_plain;
use crate::backend::document_json;
use crate::backend::holds_each;
use crate::backend::match_all_terms;
use crate::backend::open_searcher;
use crate::backend::parse_query;
use crate::backend::query_parser;
use crate::backend::searcher_fields;
use crate::backend::writer_fields;
use crate::backend::share_searcher;
use crate::backend::stored_documents;
use crate::backend::stored_json;
use crate::backend::top_hits;
use crate::backend::DocumentWriter;
use crate::backend::ParsedQuery;
use crate::document::named_fields_of;
use crate::document::DocumentModel;
use crate::error::ExecutionFault;
use crate::error::ParseFault;
use crate::error::SearchError;
use crate::ranking::accept_hits;
use crate::ranking::have_distinct_addresses;
use crate::ranking::is_acceptable;
use crate::ranking::lemma_ranked_scores_descend;
use crate::ranking::Hit;
use crate::query::admits;
use crate::query::admits_text;
use crate::schema::declared_schema;
use crate::schema::default_field_names;
use crate::schema::has_field;
use crate::schema::lemma_schema_declares;
use crate::schema::search_fields;
use tantivy::query::QueryParser;
use tantivy::Searcher;
use tantivy::TantivyError;
use vstd::pervasive::unreached;
use vstd::prelude::*;
use vstd::string::StringExecFns;

verus! {

/// The query that a raw text is compiled to, where it is admitted and
/// the parser takes it for a query: what a parser compiles that was made
/// with the fields of the schema and the default fields, and that takes
/// terms written side by side as all required.
pub open spec fn compiled(raw: Seq<char>) -> Option<ParsedQuery> {
    if admits_text(raw) {
        compiled_query(declared_schema(), default_field_names(), true, raw)
    } else {
        None
    }
}

/// The number of documents that one query returns at most.
pub const RESULT_LIMIT: usize = 10;

/// The number of workers that answer queries side by side.
pub const POOL_SIZE: usize = 8;

/// The committed index: a read-only snapshot of every document that was
/// indexed. It never changes; `share` hands out further handles to the
/// same snapshot.
pub struct SearchIndex {
    searcher: Searcher,
    documents: Ghost<Seq<DocumentModel>>,
}

impl SearchIndex {
    #[verifier::type_invariant]
    spec fn holds_indexed_documents_only(self) -> bool {
        &&& searcher_fields(self.searcher) == declared_schema()
        &&& holds_each(stored_documents(self.searcher), named_fields_of(self.documents@))
        &&& forall|address: (u32, u32)|
            stored_documents(self.searcher).dom().contains(address) ==> named_fields_of(
                self.documents@,
            ).contains(#[trigger] stored_documents(self.searcher)[address])
    }

    /// The documents that the index was built from, in the order in which
    /// they were added.
    pub closed spec fn documents(&self) -> Seq<DocumentModel> {
        self.documents@
    }

    /// The fields of the index: the name of each, and whether it is
    /// tokenized, in declaration order.
    pub closed spec fn fields(&self) -> Seq<(Seq<char>, bool, bool)> {
        searcher_fields(self.searcher)
    }

    /// The index holds the document at some address, with its fields as
    /// they were indexed.
    pub closed spec fn stores(&self, document: DocumentModel) -> bool {
        exists|address: (u32, u32)|
            stored_documents(self.searcher).dom().contains(address) && #[trigger] stored_documents(
                self.searcher,
            )[address] == document.named_fields()
    }

    /// The index holds every document that it was built from.
    pub open spec fn stores_all(&self) -> bool {
        forall|i: int| 0 <= i < self.documents().len() ==> self.stores(#[trigger] self.documents()[i])
    }

    /// The hit addresses a document of this index.
    pub closed spec fn addresses(&self, hit: Hit) -> bool {
        stored_documents(self.searcher).dom().contains((hit.segment, hit.doc))
    }

    /// The hits that the index gives for a compiled query, asked for no
    /// more than `limit` of them: what the collector hands back where
    /// the search succeeds.
    pub closed spec fn hits(&self, query: ParsedQuery, limit: nat) -> Seq<Hit> {
        collected_hits(self.searcher, query, limit)
    }

    /// The document that a hit addresses: the one among `documents()`
    /// whose fields the index holds at the hit's address.
    pub closed spec fn document_at(&self, hit: Hit) -> DocumentModel {
        choose|d: DocumentModel|
            self.documents@.contains(d) && d.named_fields() == stored_documents(
                self.searcher,
            )[(hit.segment, hit.doc)]
    }

    /// Opens the snapshot of a writer's last commit.
    pub(crate) fn open(writer: &DocumentWriter, documents: Ghost<Seq<DocumentModel>>) -> (r: Result<
        SearchIndex,
        TantivyError,
    >)
        requires
            writer_fields(*writer) == declared_schema(),
            committed_documents(*writer) == named_fields_of(documents@),
        ensures
            r matches Ok(index) ==> {
                &&& index.documents() == documents@
                &&& index.fields() == declared_schema()
                &&& index.stores_all()
            },
    {
        let searcher = open_searcher(writer)?;
        proof {
            let named = named_fields_of(documents@);
            assert forall|i: int| 0 <= i < documents@.len() implies exists|address: (u32, u32)|
                stored_documents(searcher).dom().contains(address) && #[trigger] stored_documents(
                    searcher,
                )[address] == (#[trigger] documents@[i]).named_fields() by {
                assert(named[i] == documents@[i].named_fields());
            }
        }
        Ok(SearchIndex { searcher, documents })
    }

    /// Another handle to the same snapshot: the same index.
    pub fn share(&self) -> (r: SearchIndex)
        ensures
            r == *self,
    {
        proof {
            use_type_invariant(self);
        }
        SearchIndex { searcher: share_searcher(&self.searcher), documents: self.documents }
    }

    /// The hits of a compiled query, as the collector hands them back.
    fn collect(&self, query: &ParsedQuery, limit: usize) -> (r: Result<Vec<Hit>, TantivyError>)
        requires
            1 <= limit <= 1000,
        ensures
            r matches Ok(hits) ==> hits@ == self.hits(*query, limit as nat),
            r matches Ok(hits) ==> hits.len() <= limit,
            r matches Ok(hits) ==> have_distinct_addresses(hits@),
            r matches Ok(hits) ==> forall|i: int| 0 <= i < hits.len() ==> self.addresses(#[trigger] hits[i]),
    {
        top_hits(&self.searcher, query, limit)
    }

    /// The JSON text of the document that a hit addresses.
    fn retrieve(&self, hit: Hit) -> (r: Result<String, TantivyError>)
        requires
            self.addresses(hit),
        ensures
            self.documents().contains(self.document_at(hit)),
            r matches Ok(json) ==> json@ == document_json(self.document_at(hit).named_fields()),
    {
        proof {
            use_type_invariant(self);
            let stored = stored_documents(self.searcher)[(hit.segment, hit.doc)];
            let named = named_fields_of(self.documents@);
            assert(named.contains(stored));
            let k = choose|k: int| 0 <= k < named.len() && named[k] == stored;
            let d = self.documents@[k];
            assert(self.documents@.contains(d) && d.named_fields() == stored);
        }
        stored_json(&self.searcher, hit.segment, hit.doc)
    }
}

/// One document of a result list.
#[derive(Clone, Debug, PartialEq, Eq)]
pub struct RankedDocument {
    /// The match that brought the document into the list.
    pub hit: Hit,
    /// The stored fields of the document, as a JSON object.
    pub json: String,
}

/// The hits of a result list, in order.
pub open spec fn hits_of(results: Seq<RankedDocument>) -> Seq<Hit> {
    results.map_values(|r: RankedDocument| r.hit)
}

/// The JSON texts of a result list, in order.
pub open spec fn texts_of(results: Seq<RankedDocument>) -> Seq<Seq<char>> {
    results.map_values(|r: RankedDocument| r.json@)
}

/// The items with a comma between each two.
pub open spec fn joined(items: Seq<Seq<char>>) -> Seq<char>
    decreases items.len(),
{
    if items.len() == 0 {
        Seq::empty()
    } else if items.len() == 1 {
        items[0]
    } else {
        joined(items.drop_last()) + seq![','] + items.last()
    }
}

/// The body of a response: the JSON array of the items, and a line feed.
pub open spec fn response_body(items: Seq<Seq<char>>) -> Seq<char> {
    seq!['['] + joined(items) + seq![']', '\n']
}

/// Serializes a result list: a JSON array of the documents in order,
/// followed by a line feed. An empty list gives `[]` and the line feed.
pub fn render(results: &Vec<RankedDocument>) -> (body: String)
    ensures
        body@ == response_body(texts_of(results@)),
        results.len() == 0 ==> body@ == "[]\n"@,
{
    proof {
        reveal_strlit("[");
        reveal_strlit("]\n");
        reveal_strlit("[]\n");
        assert("["@ == seq!['[']);
        assert(response_body(Seq::<Seq<char>>::empty()) == "[]\n"@);
    }
    let ghost texts = texts_of(results@);
    let mut body = String::from_str("[");
    let mut i: usize = 0;
    assert(texts.take(0) == Seq::<Seq<char>>::empty());
    assert(body@ == seq!['['] + joined(texts.take(0)));
    while i < results.len()
        invariant
            i <= results.len(),
            texts == texts_of(results@),
            body@ == seq!['['] + joined(texts.take(i as int)),
        decreases results.len() - i,
    {
        proof {
            reveal_strlit(",");
            assert(","@ == seq![',']);
            let longer = texts.take(i + 1);
            assert(longer.drop_last() == texts.take(i as int));
            assert(longer.last() == results[i as int].json@);
            if i > 0 {
                assert(seq!['['] + joined(texts.take(i as int)) + seq![','] + longer.last() == seq!['[']
                    + joined(longer));
            } else {
                assert(joined(texts.take(0)) == Seq::<char>::empty());
                assert(seq!['['] + Seq::<char>::empty() + longer.last() == seq!['['] + joined(longer));
            }
        }
        if i > 0 {
            body.append(",");
        }
        body.append(results[i].json.as_str());
        i += 1;
    }
    assert(texts.take(results.len() as int) == texts);
    body.append("]\n");
    assert("]\n"@ == seq![']', '\n']);
    body
}

/// A worker: its own handle to the committed index and its own query
/// parser. It keeps nothing from one query to the next.
pub struct QueryExecutor {
    index: SearchIndex,
    parser: QueryParser,
}

impl QueryExecutor {
    #[verifier::type_invariant]
    spec fn parses_as_the_schema_says(self) -> bool {
        &&& parser_is_plain(self.parser)
        &&& parser_fields(self.parser) == declared_schema()
        &&& parser_defaults(self.parser) == default_field_names()
        &&& parser_is_conjunctive(self.parser)
    }

    /// The index that the worker searches.
    pub closed spec fn index(&self) -> SearchIndex {
        self.index
    }

    /// The names of the fields that the worker's parser matches a term
    /// without a field against.
    pub closed spec fn default_fields(&self) -> Seq<Seq<char>> {
        parser_defaults(self.parser)
    }

    /// Whether the worker's parser takes terms written side by side as
    /// all required.
    pub closed spec fn requires_all_terms(&self) -> bool {
        parser_is_conjunctive(self.parser)
    }

    /// The result holds the stored fields of a document of the index,
    /// as they were indexed.
    pub open spec fn retrieves(&self, result: RankedDocument) -> bool {
        &&& self.index().documents().contains(self.index().document_at(result.hit))
        &&& result.json@ == document_json(self.index().document_at(result.hit).named_fields())
    }

    /// The results are an answer of this worker: no more than
    /// `RESULT_LIMIT`, in ranked order, each a document of the index.
    pub open spec fn answers_with(&self, results: Seq<RankedDocument>) -> bool {
        &&& is_acceptable(hits_of(results), RESULT_LIMIT as nat)
        &&& forall|i: int| 0 <= i < results.len() ==> self.retrieves(#[trigger] results[i])
    }

    /// The query that the worker compiles a raw text to, where it takes
    /// the text for a query at all. Every worker compiles alike.
    pub open spec fn compiles(&self, raw: Seq<char>) -> Option<ParsedQuery> {
        compiled(raw)
    }

    /// The hits of a compiled query on the worker's index, as the
    /// collector hands them back for the limit of a result list.
    pub open spec fn matches(&self, query: ParsedQuery) -> Seq<Hit> {
        self.index().hits(query, RESULT_LIMIT as nat)
    }

    /// The stored fields of the documents that the hits address, each as
    /// a JSON object, in the order of the hits.
    pub open spec fn texts_for(&self, hits: Seq<Hit>) -> Seq<Seq<char>> {
        hits.map_values(|hit: Hit| document_json(self.index().document_at(hit).named_fields()))
    }

    /// Each hit addresses a document that the index was built from.
    pub open spec fn finds_indexed(&self, hits: Seq<Hit>) -> bool {
        forall|i: int|
            0 <= i < hits.len() ==> self.index().documents().contains(
                self.index().document_at(#[trigger] hits[i]),
            )
    }

    /// The hits are such as a result list is made of: no more than
    /// `RESULT_LIMIT`, best first, no document twice, each a document of
    /// the index.
    pub open spec fn is_well_found(&self, hits: Seq<Hit>) -> bool {
        &&& is_acceptable(hits, RESULT_LIMIT as nat)
        &&& have_distinct_addresses(hits)
        &&& self.finds_indexed(hits)
    }

    /// The body that answers a compiled query: the documents of its hits,
    /// serialized in their order.
    pub open spec fn answer_body(&self, query: ParsedQuery) -> Seq<char> {
        response_body(self.texts_for(self.matches(query)))
    }

    /// A worker on the given index, with a handle of its own to that
    /// index and a parser of its own, which matches a term without a field
    /// against title, breadcrumbs and body, and takes terms written side
    /// by side as all required. The index has these fields, so the worker
    /// can always be made.
    pub fn new(index: &SearchIndex) -> (executor: QueryExecutor)
        ensures
            executor.index() == *index,
            executor.default_fields() == default_field_names(),
            executor.requires_all_terms(),
    {
        let defaults = search_fields();
        let mut names: Vec<String> = Vec::new();
        let mut i: usize = 0;
        while i < defaults.len()
            invariant
                i <= defaults.len(),
                names.len() == i,
                forall|j: int| 0 <= j < i ==> (#[trigger] names[j])@ == defaults[j].spec_name(),
            decreases defaults.len() - i,
        {
            names.push(defaults[i].name().to_owned());
            i += 1;
        }
        let own = index.share();
        proof {
            use_type_invariant(&own);
            assert forall|j: int| 0 <= j < names.len() implies has_field(
                searcher_fields(own.searcher),
                (#[trigger] names[j])@,
            ) by {
                lemma_schema_declares(defaults[j]);
            }
            assert(names.deep_view() == default_field_names());
        }
        match query_parser(&own.searcher, &names) {
            Ok(mut parser) => {
                match_all_terms(&mut parser);
                QueryExecutor { index: own, parser }
            },
            Err(_) => unreached(),
        }
    }

    /// Compiles a raw query against the schema. A text that is not
    /// admitted is refused before the parser sees it. Of the others the
    /// parser decides what is a query: a text that it takes is compiled
    /// to `compiles(raw)`, and one that it does not take is reported with
    /// the parser's error.
    pub fn parse(&self, raw: &str) -> (r: Result<ParsedQuery, SearchError>)
        ensures
            match r {
                Ok(query) => self.compiles(raw@) == Some(query),
                Err(SearchError::QueryParse(ParseFault::Refused)) => !admits_text(raw@),
                Err(SearchError::QueryParse(ParseFault::Parser(_))) => admits_text(raw@) && self.compiles(
                    raw@,
                ) is None,
                Err(_) => false,
            },
    {
        proof {
            use_type_invariant(self);
        }
        if !admits(raw) {
            return Err(SearchError::QueryParse(ParseFault::Refused));
        }
        match parse_query(&self.parser, raw) {
            Ok(query) => Ok(query),
            Err(e) => Err(SearchError::QueryParse(ParseFault::Parser(e))),
        }
    }

    /// Runs a compiled query: hands it to the collector with the limit
    /// `RESULT_LIMIT`, and reads the stored fields of each hit that comes
    /// back. The result holds the collector's hits, `matches(query)`, one
    /// document for each and in their order, each with the stored fields
    /// of the document that the hit addresses. So it has no more than
    /// `RESULT_LIMIT` documents; it is only handed out where the hits are
    /// ranked: their scores never increase from one to the next, and
    /// equal scores are ordered by address. Hits that are not ranked are
    /// refused as `Ranking`. Every call starts from an empty ranking, and
    /// the same query on the same index gives the same result.
    pub fn search(&self, query: &ParsedQuery) -> (r: Result<Vec<RankedDocument>, SearchError>)
        ensures
            match r {
                Ok(results) => {
                    &&& hits_of(results@) == self.matches(*query)
                    &&& texts_of(results@) == self.texts_for(self.matches(*query))
                    &&& self.is_well_found(self.matches(*query))
                    &&& self.answers_with(results@)
                    &&& results.len() <= RESULT_LIMIT
                    &&& forall|i: int, j: int|
                        0 <= i <= j < results.len() ==> (#[trigger] results[i]).hit.rank() >= (
                        #[trigger] results[j]).hit.rank()
                },
                Err(SearchError::SearchExecution(ExecutionFault::Ranking)) => !is_acceptable(
                    self.matches(*query),
                    RESULT_LIMIT as nat,
                ),
                Err(e) => e is SearchExecution,
            },
    {
        let collected = match self.index.collect(query, RESULT_LIMIT) {
            Ok(hits) => hits,
            Err(e) => { return Err(SearchError::SearchExecution(ExecutionFault::Index(e))); },
        };
        let hits = match accept_hits(collected, RESULT_LIMIT) {
            Ok(hits) => hits,
            Err(fault) => { return Err(SearchError::SearchExecution(fault)); },
        };
        let mut results: Vec<RankedDocument> = Vec::new();
        let mut i: usize = 0;
        while i < hits.len()
            invariant
                i <= hits.len(),
                results.len() == i,
                forall|j: int| 0 <= j < hits.len() ==> self.index.addresses(#[trigger] hits[j]),
                forall|j: int| 0 <= j < i ==> (#[trigger] results[j]).hit == hits[j],
                forall|j: int| 0 <= j < i ==> self.retrieves(#[trigger] results[j]),
            decreases hits.len() - i,
        {
            let hit = hits[i];
            let json = match self.index.retrieve(hit) {
                Ok(json) => json,
                Err(e) => { return Err(SearchError::SearchExecution(ExecutionFault::Index(e))); },
            };
            results.push(RankedDocument { hit, json });
            i += 1;
        }
        proof {
            assert(hits_of(results@) == hits@);
            assert forall|k: int| 0 <= k < hits@.len() implies self.index().documents().contains(
                self.index().document_at(#[trigger] hits@[k]),
            ) by {
                assert(self.retrieves(results[k]));
            }
            assert(texts_of(results@) == self.texts_for(hits@)) by {
                assert forall|k: int| 0 <= k < results.len() implies texts_of(results@)[k]
                    == self.texts_for(hits@)[k] by {
                    assert(self.retrieves(results[k]));
                }
            }
            assert forall|i: int, j: int| 0 <= i <= j < results.len() implies (#[trigger] results[i]).hit.rank()
                >= (#[trigger] results[j]).hit.rank() by {
                lemma_ranked_scores_descend(hits@, i, j);
            }
        }
        Ok(results)
    }

    /// Answers one raw query from end to end: compiles it, runs it, and
    /// serializes the result list. A text that the parser refuses is
    /// reported as `QueryParse`, and no other text is; among those, a
    /// text that is not admitted is reported as `Refused`. A body that
    /// comes back is `answer_body` of the query that the text compiles
    /// to: it holds no more than `RESULT_LIMIT` documents, best first,
    /// each a document of the index with its fields as they were indexed.
    /// The same text on the same index gives the same body.
    pub fn execute(&self, raw: &str) -> (r: Result<String, SearchError>)
        ensures
            !admits_text(raw@) <==> r matches Err(SearchError::QueryParse(ParseFault::Refused)),
            self.compiles(raw@) is None <==> r matches Err(SearchError::QueryParse(_)),
            match r {
                Ok(body) => {
                    &&& self.compiles(raw@) matches Some(query) && body@ == self.answer_body(query)
                        && self.is_well_found(self.matches(query))
                },
                Err(SearchError::QueryParse(_)) => true,
                Err(SearchError::SearchExecution(fault)) => self.compiles(raw@) matches Some(query) && (
                fault is Ranking ==> !is_acceptable(self.matches(query), RESULT_LIMIT as nat)),
            },
    {
        let query = match self.parse(raw) {
            Ok(query) => query,
            Err(e) => { return Err(e); },
        };
        let results = match self.search(&query) {
            Ok(results) => results,
            Err(e) => { return Err(e); },
        };
        Ok(render(&results))
    }
}

/// Two workers on one index answer alike: they compile every text to the
/// same query, and answer every query with the same body, whatever either
/// of them was asked before.
pub proof fn lemma_workers_answer_alike(first: QueryExecutor, second: QueryExecutor, raw: Seq<char>)
    requires
        first.index() == second.index(),
    ensures
        first.compiles(raw) == second.compiles(raw),
        forall|query: ParsedQuery| #[trigger] first.answer_body(query) == second.answer_body(query),
        forall|query: ParsedQuery| #[trigger] first.matches(query) == second.matches(query),
{
}

/// The same query on the same index gives the same result list: two
/// results of one compiled query hold the same hits in the same order,
/// and the same text for each.
pub proof fn lemma_same_query_same_results(
    executor: QueryExecutor,
    query: ParsedQuery,
    first: Seq<RankedDocument>,
    second: Seq<RankedDocument>,
)
    requires
        hits_of(first) == executor.matches(query),
        texts_of(first) == executor.texts_for(executor.matches(query)),
        hits_of(second) == executor.matches(query),
        texts_of(second) == executor.texts_for(executor.matches(query)),
    ensures
        first.len() == second.len(),
        forall|i: int| 0 <= i < first.len() ==> (#[trigger] first[i]).hit == second[i].hit,
        forall|i: int| 0 <= i < first.len() ==> (#[trigger] first[i]).json@ == second[i].json@,
{
    assert(hits_of(first) == hits_of(second));
    assert(texts_of(first) == texts_of(second));
    assert(hits_of(first).len() == first.len() && hits_of(second).len() == second.len());
    assert forall|i: int| 0 <= i < first.len() implies (#[trigger] first[i]).hit == second[i].hit by {
        assert(hits_of(first)[i] == first[i].hit);
        assert(hits_of(second)[i] == second[i].hit);
    }
    assert forall|i: int| 0 <= i < first.len() implies (#[trigger] first[i]).json@ == second[i].json@ by {
        assert(texts_of(first)[i] == first[i].json@);
        assert(texts_of(second)[i] == second[i].json@);
    }
}

/// A document that comes back as a result was indexed: it is one of the
/// documents that the index was built from, and the result shows the
/// fields of that document as they were added, value for value.
pub proof fn lemma_results_were_indexed(executor: QueryExecutor, results: Seq<RankedDocument>, i: int)
    requires
        executor.answers_with(results),
        0 <= i < results.len(),
    ensures
        exists|d: DocumentModel|
            executor.index().documents().contains(d) && results[i].json@ == document_json(
                d.named_fields(),
            ),
{
    assert(executor.retrieves(results[i]));
    let d = executor.index().document_at(results[i].hit);
    assert(executor.index().documents().contains(d) && results[i].json@ == document_json(
        d.named_fields(),
    ));
}

/// The workers of a pool: `count` of them, each with a handle of its own
/// to the one committed index and a parser of its own, made alike.
pub fn workers(index: &SearchIndex, count: usize) -> (pool: Vec<QueryExecutor>)
    ensures
        pool.len() == count,
        forall|i: int|
            0 <= i < pool.len() ==> {
                &&& (#[trigger] pool[i]).index() == *index
                &&& pool[i].default_fields() == default_field_names()
                &&& pool[i].requires_all_terms()
            },
{
    let mut pool: Vec<QueryExecutor> = Vec::new();
    while pool.len() < count
        invariant
            pool.len() <= count,
            forall|i: int|
                0 <= i < pool.len() ==> {
                    &&& (#[trigger] pool[i]).index() == *index
                    &&& pool[i].default_fields() == default_field_names()
                    &&& pool[i].requires_all_terms()
                },
        decreases count - pool.len(),
    {
        let worker = QueryExecutor::new(index);
        pool.push(worker);
    }
    pool
}

} // verus!
