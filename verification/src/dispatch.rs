//! The boundary between the transport and the workers: what to do with a
//! request, and what to answer once a worker is done with it.

use crate::error::RequestError;
use crate::error::SearchError;
use crate::executor::QueryExecutor;
use crate::urlencoded::decode_pairs;
use crate::urlencoded::decoded_pairs;
use vstd::prelude::*;

verus! {

/// Status of a response that carries a result.
pub const STATUS_OK: u16 = 200;

/// Status of every response that reports a failure.
pub const STATUS_FAILURE: u16 = 500;

/// The name of the request parameter that holds the raw query.
pub open spec fn query_parameter_name() -> Seq<char> {
    "query"@
}

/// The reason given where a request has no query parameter.
pub open spec fn missing_query_reason() -> Seq<char> {
    "Unable to find query URL parameter"@
}

/// The reason given where a query could not be answered.
pub open spec fn search_failure_reason() -> Seq<char> {
    "Error executing search query"@
}

/// The content type of a result.
pub open spec fn json_content_type() -> Seq<char> {
    "application/json"@
}

/// A response, as the transport is to send it.
#[derive(Clone, Debug, PartialEq, Eq)]
pub struct Response {
    /// The status code.
    pub status: u16,
    /// The reason phrase, where it is not the standard one of the status.
    pub reason: Option<&'static str>,
    /// The content type, where there is a body.
    pub content_type: Option<&'static str>,
    /// The body.
    pub body: String,
}

/// What a `Response` holds, as text.
pub struct ResponseModel {
    pub status: u16,
    pub reason: Option<Seq<char>>,
    pub content_type: Option<Seq<char>>,
    pub body: Seq<char>,
}

impl View for Response {
    type V = ResponseModel;

    open spec fn view(&self) -> ResponseModel {
        ResponseModel {
            status: self.status,
            reason: match self.reason {
                Some(reason) => Some(reason@),
                None => None,
            },
            content_type: match self.content_type {
                Some(content_type) => Some(content_type@),
                None => None,
            },
            body: self.body@,
        }
    }
}

/// The response that carries a serialized result.
pub open spec fn success(body: Seq<char>) -> ResponseModel {
    ResponseModel {
        status: STATUS_OK,
        reason: None,
        content_type: Some(json_content_type()),
        body,
    }
}

/// The response that reports a failure, with a reason of its own or with
/// the standard one.
pub open spec fn failure(reason: Option<Seq<char>>) -> ResponseModel {
    ResponseModel { status: STATUS_FAILURE, reason, content_type: None, body: Seq::empty() }
}

/// The value of a request parameter: that of the last pair with the
/// given name, as in a map filled pair by pair.
pub open spec fn parameter_value(pairs: Seq<(Seq<char>, Seq<char>)>, name: Seq<char>) -> Option<
    Seq<char>,
>
    decreases pairs.len(),
{
    if pairs.len() == 0 {
        None
    } else if pairs.last().0 == name {
        Some(pairs.last().1)
    } else {
        parameter_value(pairs.drop_last(), name)
    }
}

/// The raw query of a request with the given query string: the value of
/// its query parameter. A string that the framework does not take has no
/// parameters.
pub open spec fn query_of(query_string: Seq<char>) -> Option<Seq<char>> {
    match decoded_pairs(query_string) {
        Some(pairs) => parameter_value(pairs, query_parameter_name()),
        None => None,
    }
}

/// What the dispatcher does with a request.
#[derive(Debug)]
pub enum Dispatch {
    /// Hand the raw query to a worker.
    Submit(String),
    /// Answer at once.
    Reply(Response),
}

/// What came back from the pool of workers.
#[derive(Debug)]
pub enum PoolReply {
    /// A worker ran the query to its end.
    Completed(Result<String, SearchError>),
    /// No worker could be reached, or none answered.
    Unreachable,
}

/// The value of the query parameter among the decoded parameters of a
/// request.
pub fn query_parameter(pairs: &Vec<(String, String)>) -> (r: Option<String>)
    ensures
        r is Some == parameter_value(pairs.deep_view(), query_parameter_name()) is Some,
        r matches Some(query) ==> parameter_value(pairs.deep_view(), query_parameter_name()) == Some(
            query@,
        ),
{
    let wanted = "query".to_owned();
    let mut i: usize = pairs.len();
    assert(pairs.deep_view().take(i as int) == pairs.deep_view());
    while i > 0
        invariant
            i <= pairs.len(),
            wanted@ == query_parameter_name(),
            parameter_value(pairs.deep_view(), query_parameter_name()) == parameter_value(
                pairs.deep_view().take(i as int),
                query_parameter_name(),
            ),
        decreases i,
    {
        let ghost front = pairs.deep_view().take(i as int);
        assert(front.last() == pairs.deep_view()[i - 1]);
        assert(front.drop_last() == pairs.deep_view().take(i - 1));
        i -= 1;
        if pairs[i].0 == wanted {
            return Some(pairs[i].1.clone());
        }
    }
    None
}

/// The reason phrase that a failed request is answered with: one for a
/// missing parameter, one for every failure of a search, and the
/// standard phrase of the status where the pool did not answer.
pub open spec fn reason_of(error: RequestError) -> Option<Seq<char>> {
    match error {
        RequestError::MissingParameter => Some(missing_query_reason()),
        RequestError::Search(_) => Some(search_failure_reason()),
        RequestError::Dispatch => None,
    }
}

/// The response to a failed request. Every failure is answered with the
/// same status; only the reason tells them apart.
pub fn error_response(error: &RequestError) -> (r: Response)
    ensures
        r@ == failure(reason_of(*error)),
{
    let reason = match error {
        RequestError::MissingParameter => Some("Unable to find query URL parameter"),
        RequestError::Search(_) => Some("Error executing search query"),
        RequestError::Dispatch => None,
    };
    Response { status: STATUS_FAILURE, reason, content_type: None, body: String::new() }
}

/// The raw query of a request, from its query string.
pub fn extract_query(query_string: &str) -> (r: Option<String>)
    ensures
        r is Some == query_of(query_string@) is Some,
        r matches Some(query) ==> query_of(query_string@) == Some(query@),
{
    match decode_pairs(query_string) {
        Ok(pairs) => query_parameter(&pairs),
        Err(_) => None,
    }
}

/// Decides what to do with a request: one with a query parameter goes to
/// a worker, one without is answered at once with a failure.
pub fn dispatch(query_string: &str) -> (r: Dispatch)
    ensures
        match query_of(query_string@) {
            Some(query) => r matches Dispatch::Submit(raw) && raw@ == query,
            None => r matches Dispatch::Reply(response) && response@ == failure(
                Some(missing_query_reason()),
            ),
        },
{
    match extract_query(query_string) {
        Some(raw) => Dispatch::Submit(raw),
        None => Dispatch::Reply(error_response(&RequestError::MissingParameter)),
    }
}

/// The response to a request that went to the pool: the serialized
/// result where a worker produced one, a failure with the reason of a
/// failed search where the worker reported an error of any kind, and a
/// plain failure where the pool did not answer.
pub fn respond(reply: PoolReply) -> (r: Response)
    ensures
        match reply {
            PoolReply::Completed(Ok(body)) => r@ == success(body@),
            PoolReply::Completed(Err(_)) => r@ == failure(Some(search_failure_reason())),
            PoolReply::Unreachable => r@ == failure(None),
        },
{
    match reply {
        PoolReply::Completed(Ok(body)) => Response {
            status: STATUS_OK,
            reason: None,
            content_type: Some("application/json"),
            body,
        },
        PoolReply::Completed(Err(e)) => error_response(&RequestError::Search(e)),
        PoolReply::Unreachable => error_response(&RequestError::Dispatch),
    }
}

/// Answers a request on the worker at hand, without a pool in between:
/// what a client sees of one request from end to end.
pub fn answer(executor: &QueryExecutor, query_string: &str) -> (r: Response)
    ensures
        match query_of(query_string@) {
            None => r@ == failure(Some(missing_query_reason())),
            Some(raw) => match executor.compiles(raw) {
                None => r@ == failure(Some(search_failure_reason())),
                Some(query) => {
                    ||| r@ == failure(Some(search_failure_reason()))
                    ||| r@ == success(executor.answer_body(query)) && executor.is_well_found(
                        executor.matches(query),
                    )
                },
            },
        },
{
    match dispatch(query_string) {
        Dispatch::Reply(response) => response,
        Dispatch::Submit(raw) => respond(PoolReply::Completed(executor.execute(raw.as_str()))),
    }
}

} // verus!
