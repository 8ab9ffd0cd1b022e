//! Full-text search over several documentation corpora: the pipeline that
//! turns per-corpus document collections into one committed index, and the
//! engine that answers ranked queries against it.
//!
//! The index is built once and never changed afterwards:
//!
//! * [`artifact`] strips the script framing from a corpus's search
//!   artifact, and [`source`] decodes the payload into the collection of
//!   the corpus;
//! * [`schema`] and [`document`] fix what an indexed document is;
//! * [`builder`] stages the documents of every saved collection and
//!   commits them in one step, or fails as a whole.
//!
//! Queries are answered against the committed index:
//!
//! * [`executor`] holds the committed index and the workers, each of
//!   which compiles a raw query, collects the best matches, and
//!   serializes their stored fields; [`query`] decides which raw texts
//!   the parser is asked about;
//! * [`ranking`] fixes the order of a result list and checks what the
//!   collector hands back;
//! * [`dispatch`] decides what a request gets: a place in the pool, or an
//!   answer at once, and which response follows from the pool's reply.
//!
//! The index itself is kept by an outside engine. [`backend`], [`json`]
//! and [`urlencoded`] hold every call into outside code, each with the
//! statement that the rest of the library relies on.

pub mod artifact;
pub mod backend;
pub mod builder;
pub mod dispatch;
pub mod document;
pub mod error;
pub mod executor;
pub mod json;
pub mod query;
pub mod ranking;
pub mod schema;
pub mod source;
pub mod urlencoded;
