//! Decoding of a request's query string, which is left to the HTTP
//! framework: `actix_web`. Nothing in this module is proved.

use actix_web::error::QueryPayloadError;
use vstd::prelude::*;

verus! {

/// `actix_web::error::QueryPayloadError`. Opaque here.
#[verifier::external_type_specification]
#[verifier::external_body]
pub struct ExQueryPayloadError(QueryPayloadError);

/// The pairs of name and value that the framework decodes from a query
/// string, in the order in which the string holds them, where it takes
/// the string at all.
pub uninterp spec fn decoded_pairs(query_string: Seq<char>) -> Option<Seq<(Seq<char>, Seq<char>)>>;

/// `actix_web::web::Query::from_query` into a list of pairs of strings.
#[verifier::external_body]
pub(crate) fn decode_pairs(query_string: &str) -> (r: Result<Vec<(String, String)>, QueryPayloadError>)
    ensures
        match r {
            Ok(pairs) => decoded_pairs(query_string@) == Some(pairs.deep_view()),
            Err(_) => decoded_pairs(query_string@) is None,
        },
{
    actix_web::web::Query::<Vec<(String, String)>>::from_query(query_string).map(|pairs| pairs.into_inner())
}

} // verus!
