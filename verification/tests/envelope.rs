//! Status classification and the envelope's decode paths.

use ollama_client::completion::CompletionResponse;
use ollama_client::errors::OllamaError;
use ollama_client::generate::{dispatch_generate, GenerateResponse};
use ollama_client::response::{check_response_valid, OllamaResponse, RawResponse};

fn raw(status: u16, body: &str) -> RawResponse {
    RawResponse {
        status,
        chunks: vec![Ok(body.as_bytes().to_vec())],
    }
}

#[test]
fn non_success_status_reports_the_raw_body_text() {
    let body = "{\"error\":\"model 'unknown model' not found, try pulling it first\"}";
    let err = check_response_valid(Ok(raw(404, body))).err().unwrap();
    assert_eq!(err, OllamaError::OllamaError(String::from(body)));

    // The body text is carried verbatim even when it is not valid JSON.
    let err = check_response_valid(Ok(raw(500, "out of memory"))).err().unwrap();
    assert_eq!(err, OllamaError::OllamaError(String::from("out of memory")));
}

#[test]
fn non_success_status_with_unreadable_body_reports_empty_text() {
    let resp = RawResponse {
        status: 502,
        chunks: vec![Err(String::from("read timed out"))],
    };
    let err = check_response_valid(Ok(resp)).err().unwrap();
    assert_eq!(err, OllamaError::OllamaError(String::new()));
}

#[test]
fn transport_failure_is_a_request_error() {
    let err = check_response_valid(Err(String::from("connection refused")))
        .err()
        .unwrap();
    assert_eq!(
        err,
        OllamaError::RequestError(String::from("connection refused"))
    );
}

#[test]
fn success_status_passes_through() {
    let resp = check_response_valid(Ok(raw(200, "{}"))).unwrap();
    assert_eq!(resp.status, 200);
}

#[test]
fn single_decode_and_aggregate_decode_agree_on_one_object() {
    let body = "{\"model\":\"m\",\"created_at\":\"t0\",\"done\":true,\"response\":\"hello\",\"eval_count\":3}";

    let single: CompletionResponse = OllamaResponse::from(raw(200, body)).response().unwrap();
    let aggregated: CompletionResponse =
        OllamaResponse::from(raw(200, body)).as_response().unwrap();

    assert_eq!(single.model, aggregated.model);
    assert_eq!(single.created_at, aggregated.created_at);
    assert_eq!(single.done, aggregated.done);
    assert_eq!(single.response, aggregated.response);
    assert_eq!(single.total_duration, aggregated.total_duration);
    assert_eq!(single.load_duration, aggregated.load_duration);
    assert_eq!(single.prompt_eval_count, aggregated.prompt_eval_count);
    assert_eq!(single.prompt_eval_duration, aggregated.prompt_eval_duration);
    assert_eq!(single.eval_count, aggregated.eval_count);
    assert_eq!(single.eval_duration, aggregated.eval_duration);
    assert_eq!(single.context, aggregated.context);
}

#[test]
fn envelope_stream_decode_yields_one_element_per_chunk() {
    let first = "{\"model\":\"m\",\"created_at\":\"t0\",\"done\":false,\"response\":\"a\"}";
    let second = "{\"model\":\"m\",\"created_at\":\"t1\",\"done\":true,\"response\":\"b\"}";
    let resp = RawResponse {
        status: 200,
        chunks: vec![
            Ok(first.as_bytes().to_vec()),
            Ok(second.as_bytes().to_vec()),
        ],
    };
    let envelope: OllamaResponse<CompletionResponse> = OllamaResponse::from(resp);
    let elems = envelope.as_stream().unwrap();
    assert_eq!(elems.len(), 2);
    assert_eq!(elems[0].as_ref().unwrap().response, "a");
    assert_eq!(elems[1].as_ref().unwrap().response, "b");
}

#[test]
fn single_decode_error_kinds() {
    let unreadable = RawResponse {
        status: 200,
        chunks: vec![Err(String::from("read timed out"))],
    };
    let r: Result<CompletionResponse, _> = OllamaResponse::from(unreadable).response();
    assert_eq!(
        r.err().unwrap(),
        OllamaError::DecodeError(String::from("unreadable response body"))
    );

    let r: Result<CompletionResponse, _> = OllamaResponse::from(raw(200, "not json")).response();
    assert_eq!(
        r.err().unwrap(),
        OllamaError::ParseError(String::from("malformed response body"))
    );

    let r: Result<CompletionResponse, _> = OllamaResponse::from(raw(200, "{}")).response();
    assert_eq!(
        r.err().unwrap(),
        OllamaError::ParseError(String::from("unexpected response shape"))
    );
}

#[test]
fn dispatch_honours_the_streaming_flag() {
    let body = "{\"model\":\"m\",\"created_at\":\"t0\",\"done\":true,\"response\":\"hi\"}";

    match dispatch_generate(raw(200, body), Some(false)).unwrap() {
        GenerateResponse::NonStream(item) => assert_eq!(item.response, "hi"),
        GenerateResponse::Stream(_) => panic!("expected a single response"),
    }

    match dispatch_generate(raw(200, body), None).unwrap() {
        GenerateResponse::Stream(elems) => {
            assert_eq!(elems.len(), 1);
            assert_eq!(elems[0].as_ref().unwrap().response, "hi");
        }
        GenerateResponse::NonStream(_) => panic!("expected a stream"),
    }

    match dispatch_generate(raw(200, body), Some(true)).unwrap() {
        GenerateResponse::Stream(elems) => assert_eq!(elems.len(), 1),
        GenerateResponse::NonStream(_) => panic!("expected a stream"),
    }
}

#[test]
fn dispatch_non_stream_reports_server_errors_first() {
    let err = dispatch_generate(raw(500, "busy"), Some(false)).err().unwrap();
    assert_eq!(err, OllamaError::OllamaError(String::from("busy")));
}

#[test]
fn raw_response_hands_the_transport_response_back() {
    let envelope: OllamaResponse<CompletionResponse> = OllamaResponse::from(raw(204, "x"));
    let inner = envelope.raw_response();
    assert_eq!(inner.status, 204);
}

#[test]
fn error_messages_carry_kind_and_detail() {
    let e = OllamaError::OllamaError(String::from("boom"));
    assert_eq!(e.message(), "Ollama Error: boom");
    let e = OllamaError::RequestError(String::from("no route"));
    assert_eq!(e.message(), "Request Error: no route");
    let e = OllamaError::StreamError(String::from("cut"));
    assert_eq!(e.message(), "Stream Error: cut");
}
