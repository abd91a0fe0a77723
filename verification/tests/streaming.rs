//! Stream adaptation and aggregation over concrete bodies.

use ollama_client::chat::ChatResponse;
use ollama_client::completion::CompletionResponse;
use ollama_client::create::CreateModelResponse;
use ollama_client::errors::OllamaError;
use ollama_client::message::Role;

fn chunk(s: &str) -> Result<Vec<u8>, String> {
    Ok(s.as_bytes().to_vec())
}

#[test]
fn single_object_body_aggregates_to_itself() {
    let body = "{\"model\":\"m\",\"created_at\":\"t0\",\"done\":true,\"response\":\"hello\",\"eval_count\":3}";
    let resp = CompletionResponse::stream_to_response(vec![chunk(body)]).unwrap();
    assert_eq!(resp.response, "hello");
    assert_eq!(resp.eval_count, Some(3));
    assert_eq!(resp.created_at, "t0");
    assert_eq!(resp.model, "m");
    assert!(resp.done);
}

#[test]
fn two_line_stream_concatenates_payloads() {
    let first = "{\"done\":false,\"response\":\"He\",\"created_at\":\"t0\",\"model\":\"m\"}";
    let second = "{\"done\":true,\"response\":\"llo\",\"created_at\":\"t1\",\"model\":\"m\",\"eval_count\":5}";
    let resp = CompletionResponse::stream_to_response(vec![chunk(first), chunk(second)]).unwrap();
    assert_eq!(resp.response, "Hello");
    assert_eq!(resp.created_at, "t0");
    assert_eq!(resp.eval_count, Some(5));
    assert!(resp.done);
}

#[test]
fn one_malformed_line_yields_one_error_element_in_place() {
    let good1 = "{\"model\":\"m\",\"created_at\":\"t0\",\"done\":false,\"response\":\"a\"}";
    let bad = "{oops";
    let good2 = "{\"model\":\"m\",\"created_at\":\"t2\",\"done\":true,\"response\":\"b\"}";
    let elems = CompletionResponse::adapt_stream(vec![chunk(good1), chunk(bad), chunk(good2)]);
    assert_eq!(elems.len(), 3);
    assert_eq!(elems[0].as_ref().unwrap().response, "a");
    match &elems[1] {
        Err(OllamaError::InvalidResponse(d)) => assert_eq!(d, "malformed JSON line"),
        other => panic!("expected a decode error, got {:?}", other),
    }
    assert_eq!(elems[2].as_ref().unwrap().response, "b");
}

#[test]
fn empty_stream_aggregation_is_an_explicit_error() {
    let r = CompletionResponse::stream_to_response(Vec::new());
    assert_eq!(
        r.err().unwrap(),
        OllamaError::InvalidResponse(String::from("empty stream"))
    );
}

#[test]
fn mid_stream_read_failure_becomes_a_stream_error_element() {
    let good = "{\"model\":\"m\",\"created_at\":\"t0\",\"done\":false,\"response\":\"a\"}";
    let elems = CompletionResponse::adapt_stream(vec![
        chunk(good),
        Err(String::from("connection reset")),
        chunk(good),
    ]);
    assert_eq!(elems.len(), 3);
    assert!(elems[0].is_ok());
    assert_eq!(
        elems[1].as_ref().err().unwrap(),
        &OllamaError::StreamError(String::from("connection reset"))
    );
    assert!(elems[2].is_ok());
}

#[test]
fn first_error_aborts_aggregation() {
    let good = "{\"model\":\"m\",\"created_at\":\"t0\",\"done\":false,\"response\":\"a\"}";
    let r = CompletionResponse::stream_to_response(vec![
        chunk(good),
        Err(String::from("connection reset")),
        chunk(good),
    ]);
    assert_eq!(
        r.err().unwrap(),
        OllamaError::StreamError(String::from("connection reset"))
    );
}

#[test]
fn chat_stream_aggregates_into_one_assistant_message() {
    let first = "{\"model\":\"m\",\"created_at\":\"t0\",\"done\":false,\"message\":{\"role\":\"assistant\",\"content\":\"He\"}}";
    let second = "{\"model\":\"m\",\"created_at\":\"t1\",\"done\":true,\"message\":{\"role\":\"assistant\",\"content\":\"llo\"},\"eval_count\":5}";
    let resp = ChatResponse::stream_to_response(vec![chunk(first), chunk(second)]).unwrap();
    let message = resp.message.unwrap();
    assert_eq!(message.role, Role::Assistant);
    assert_eq!(message.content, "Hello");
    assert_eq!(message.images, None);
    assert_eq!(resp.created_at, "t0");
    assert_eq!(resp.eval_count, Some(5));
}

#[test]
fn chat_item_without_message_contributes_nothing() {
    let first = "{\"model\":\"m\",\"created_at\":\"t0\",\"done\":false}";
    let second = "{\"model\":\"m\",\"created_at\":\"t1\",\"done\":true,\"message\":{\"role\":\"assistant\",\"content\":\"hi\"}}";
    let resp = ChatResponse::stream_to_response(vec![chunk(first), chunk(second)]).unwrap();
    assert_eq!(resp.message.unwrap().content, "hi");
    assert_eq!(resp.created_at, "t0");
}

#[test]
fn create_model_stream_joins_status_lines() {
    let lines = vec![
        chunk("{\"status\":\"reading model metadata\"}"),
        chunk("{\"status\":\"success\"}"),
    ];
    let resp = CreateModelResponse::stream_to_response(lines).unwrap();
    assert_eq!(resp.status, "reading model metadata\nsuccess\n");
}

#[test]
fn wrong_shape_is_a_decode_error_element() {
    // A well-formed document that is not an item of the expected shape.
    let elems = CompletionResponse::adapt_stream(vec![chunk("{\"done\":true}")]);
    match &elems[0] {
        Err(OllamaError::InvalidResponse(d)) => assert_eq!(d, "unexpected response shape"),
        other => panic!("expected a decode error, got {:?}", other),
    }
}

#[test]
fn invalid_utf8_chunk_is_a_decode_error_element() {
    let elems = CompletionResponse::adapt_stream(vec![Ok(vec![0xffu8, 0xfe])]);
    match &elems[0] {
        Err(OllamaError::InvalidResponse(d)) => assert_eq!(d, "malformed JSON line"),
        other => panic!("expected a decode error, got {:?}", other),
    }
}
