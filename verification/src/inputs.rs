//! The two texts of a run: that both are there, and the form in which the
//! engine receives them.

use crate::error::{InputRole, PipelineError};
use vstd::prelude::*;

verus! {

/// The query and the document of a run, both present.
#[derive(Debug, Clone, PartialEq, Eq)]
pub struct TextPair {
    pub query: String,
    pub document: String,
}

/// What validation of the two texts yields: the pair where both are given, and
/// otherwise the error for the first that is missing, the document before the
/// query.
pub open spec fn validated(document: Option<String>, query: Option<String>) -> Result<
    TextPair,
    PipelineError,
> {
    match (document, query) {
        (None, _) => Err(PipelineError::MissingInput { role: InputRole::Document }),
        (Some(_), None) => Err(PipelineError::MissingInput { role: InputRole::Query }),
        (Some(document), Some(query)) => Ok(TextPair { query, document }),
    }
}

/// Checks that both texts were given. The command line is expected to have
/// checked already; the pipeline does not rely on it.
pub fn validate_inputs(document: Option<String>, query: Option<String>) -> (outcome: Result<
    TextPair,
    PipelineError,
>)
    ensures
        outcome == validated(document, query),
{
    match document {
        None => Err(PipelineError::MissingInput { role: InputRole::Document }),
        Some(document) => match query {
            None => Err(PipelineError::MissingInput { role: InputRole::Query }),
            Some(query) => Ok(TextPair { query, document }),
        },
    }
}

/// The marker that is put before a text of the given role. The model was
/// trained to tell queries from passages by it.
pub open spec fn role_prefix(role: InputRole) -> Seq<char> {
    match role {
        InputRole::Query => "query: "@,
        InputRole::Document => "passage: "@,
    }
}

/// Puts the marker of `role` before `text`, which is otherwise kept as it is.
pub fn with_role_prefix(role: InputRole, text: &str) -> (marked: String)
    ensures
        marked@ == role_prefix(role) + text@,
{
    match role {
        InputRole::Query => String::from_str("query: ").concat(text),
        InputRole::Document => String::from_str("passage: ").concat(text),
    }
}

/// The batch that is embedded for a query and a document: the marked query
/// first, the marked document second.
pub open spec fn batch_of(query: Seq<char>, document: Seq<char>) -> Seq<Seq<char>> {
    seq![
        role_prefix(InputRole::Query) + query,
        role_prefix(InputRole::Document) + document,
    ]
}

/// Position of the query's vector in what the engine returns for the batch.
pub const QUERY_INDEX: usize = 0;

/// Position of the document's vector in what the engine returns for the batch.
pub const DOCUMENT_INDEX: usize = 1;

/// Number of texts in the batch.
pub const BATCH_LEN: usize = 2;

/// Builds the batch for the engine. The order matters: the engine answers
/// position by position.
pub fn prepare_batch(pair: &TextPair) -> (batch: Vec<String>)
    ensures
        batch.deep_view() == batch_of(pair.query@, pair.document@),
        batch@.len() == BATCH_LEN,
{
    let mut batch: Vec<String> = Vec::new();
    batch.push(with_role_prefix(InputRole::Query, pair.query.as_str()));
    batch.push(with_role_prefix(InputRole::Document, pair.document.as_str()));
    assert(batch.deep_view() =~= batch_of(pair.query@, pair.document@));
    batch
}

} // verus!
