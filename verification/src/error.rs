//! The failures of the two phases: building the index, and answering a
//! query.

use crate::schema::Field;
use vstd::prelude::*;

verus! {

/// Why the index could not be built. Any of these ends the build: no
/// index is handed out.
#[derive(Debug)]
pub enum StartupError {
    /// An artifact is too short to hold a payload between its prefix and
    /// its suffix.
    Framing,
    /// A payload is not JSON, or holds no document store of the expected
    /// shape.
    Json(serde_json::Error),
    /// A document of a saved collection lacks a field that the schema
    /// needs.
    MissingField { reference: String, field: Field },
    /// The index refused an operation.
    Index(tantivy::TantivyError),
}

/// Why a parsed query could not be answered.
#[derive(Debug)]
pub enum ExecutionFault {
    /// The index failed while searching or while reading a stored document.
    Index(tantivy::TantivyError),
    /// The collector handed back more hits than asked for, or hits that
    /// are not in ranked order.
    Ranking,
}

/// Why a raw query was not compiled.
#[derive(Debug)]
pub enum ParseFault {
    /// The text is one that the parser is not asked about.
    Refused,
    /// The parser does not take the text for a query.
    Parser(tantivy::query::QueryParserError),
}

/// Why a query got no result.
#[derive(Debug)]
pub enum SearchError {
    /// The raw query cannot be compiled against the schema.
    QueryParse(ParseFault),
    /// The query was compiled, and the search failed.
    SearchExecution(ExecutionFault),
}

/// Why a request got no result. None of these outlives the request.
#[derive(Debug)]
pub enum RequestError {
    /// The request has no query parameter.
    MissingParameter,
    /// A worker took the query and failed on it.
    Search(SearchError),
    /// No worker could be reached, or none answered.
    Dispatch,
}

} // verus!
