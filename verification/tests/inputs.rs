use qwen3_embed::error::{InputRole, PipelineError};
use qwen3_embed::inputs::{
    prepare_batch, validate_inputs, with_role_prefix, TextPair, BATCH_LEN, DOCUMENT_INDEX,
    QUERY_INDEX,
};

#[test]
fn both_texts_given_are_kept_as_they_are() {
    assert_eq!(
        validate_inputs(Some(String::from("a doc")), Some(String::from("a query"))),
        Ok(TextPair { query: String::from("a query"), document: String::from("a doc") })
    );
}

#[test]
fn empty_texts_are_texts() {
    assert_eq!(
        validate_inputs(Some(String::new()), Some(String::new())),
        Ok(TextPair { query: String::new(), document: String::new() })
    );
}

#[test]
fn missing_document_is_reported() {
    assert_eq!(
        validate_inputs(None, Some(String::from("q"))),
        Err(PipelineError::MissingInput { role: InputRole::Document })
    );
}

#[test]
fn missing_query_is_reported() {
    assert_eq!(
        validate_inputs(Some(String::from("d")), None),
        Err(PipelineError::MissingInput { role: InputRole::Query })
    );
}

#[test]
fn missing_document_is_reported_before_missing_query() {
    assert_eq!(
        validate_inputs(None, None),
        Err(PipelineError::MissingInput { role: InputRole::Document })
    );
}

#[test]
fn query_gets_the_query_marker() {
    assert_eq!(
        with_role_prefix(InputRole::Query, "Where is the cat?"),
        "query: Where is the cat?"
    );
    assert_eq!(with_role_prefix(InputRole::Query, ""), "query: ");
}

#[test]
fn document_gets_the_passage_marker() {
    assert_eq!(
        with_role_prefix(InputRole::Document, "The cat sat on the mat."),
        "passage: The cat sat on the mat."
    );
    assert_eq!(with_role_prefix(InputRole::Document, "naïve café ☕"), "passage: naïve café ☕");
}

#[test]
fn marker_is_added_even_where_the_text_has_one() {
    assert_eq!(with_role_prefix(InputRole::Query, "query: x"), "query: query: x");
}

#[test]
fn batch_holds_the_query_first_and_the_document_second() {
    let pair = TextPair {
        query: String::from("Where is the cat?"),
        document: String::from("The cat sat on the mat."),
    };
    let batch = prepare_batch(&pair);
    assert_eq!(
        batch,
        vec![
            String::from("query: Where is the cat?"),
            String::from("passage: The cat sat on the mat."),
        ]
    );
    assert_eq!(batch.len(), BATCH_LEN);
    assert_eq!(batch[QUERY_INDEX], "query: Where is the cat?");
    assert_eq!(batch[DOCUMENT_INDEX], "passage: The cat sat on the mat.");
}
