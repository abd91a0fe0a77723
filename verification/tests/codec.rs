//! The JSON codec on concrete documents.

use ollama_client::completion::CompletionResponse;
use ollama_client::json::Json;
use ollama_client::parser::parse_json;

fn parse(s: &str) -> Option<Json> {
    let chars: Vec<char> = s.chars().collect();
    parse_json(&chars)
}

fn decode(s: &str) -> Option<CompletionResponse> {
    let elems = CompletionResponse::adapt_stream(vec![Ok(s.as_bytes().to_vec())]);
    elems.into_iter().next().unwrap().ok()
}

#[test]
fn parses_scalars_and_containers() {
    assert!(matches!(parse("null"), Some(Json::Null)));
    assert!(matches!(parse("true"), Some(Json::Bool(true))));
    assert!(matches!(parse("false"), Some(Json::Bool(false))));
    assert!(matches!(parse(" [1, 2, 3] "), Some(Json::Arr(_))));
    assert!(matches!(parse("{\"a\":{\"b\":[{}]}}"), Some(Json::Obj(_))));
}

#[test]
fn rejects_malformed_documents() {
    assert!(parse("").is_none());
    assert!(parse("{").is_none());
    assert!(parse("{} {}").is_none());
    assert!(parse("[1,]").is_none());
    assert!(parse("{\"a\":}").is_none());
    assert!(parse("nul").is_none());
    assert!(parse("01").is_none());
    assert!(parse("\"unterminated").is_none());
}

#[test]
fn number_grammar() {
    assert!(matches!(parse("-12.5e+3"), Some(Json::Num(_))));
    assert!(matches!(parse("0"), Some(Json::Num(_))));
    assert!(parse("1.").is_none());
    assert!(parse("+1").is_none());
    assert!(parse("1e").is_none());
}

#[test]
fn string_escapes_are_decoded() {
    match parse("\"a\\n\\t\\\\\\\"\\u0041\"") {
        Some(Json::Str(cs)) => {
            let s: String = cs.into_iter().collect();
            assert_eq!(s, "a\n\t\\\"A");
        }
        other => panic!("expected a string, got {:?}", other),
    }
}

#[test]
fn surrogate_pairs_are_combined() {
    match parse("\"\\uD83D\\uDE00\"") {
        Some(Json::Str(cs)) => {
            let s: String = cs.into_iter().collect();
            assert_eq!(s, "\u{1F600}");
        }
        other => panic!("expected a string, got {:?}", other),
    }
    // A lone surrogate denotes no character.
    assert!(parse("\"\\uD83D\"").is_none());
}

#[test]
fn unknown_fields_are_ignored() {
    let body = "{\"model\":\"m\",\"created_at\":\"t\",\"done\":true,\"response\":\"r\",\"mystery\":[{\"deep\":null}]}";
    let item = decode(body).unwrap();
    assert_eq!(item.response, "r");
}

#[test]
fn duplicate_known_fields_fail_to_decode() {
    let body = "{\"model\":\"m\",\"model\":\"m\",\"created_at\":\"t\",\"done\":true,\"response\":\"r\"}";
    assert!(decode(body).is_none());
}

#[test]
fn null_optional_fields_read_as_absent() {
    let body = "{\"model\":\"m\",\"created_at\":\"t\",\"done\":true,\"response\":\"r\",\"eval_count\":null,\"context\":null}";
    let item = decode(body).unwrap();
    assert_eq!(item.eval_count, None);
    assert_eq!(item.context, None);
}

#[test]
fn telemetry_must_be_plain_unsigned_integers() {
    let base = "{\"model\":\"m\",\"created_at\":\"t\",\"done\":true,\"response\":\"r\"";
    let ok = format!("{},\"eval_count\":42}}", base);
    assert_eq!(decode(&ok).unwrap().eval_count, Some(42));

    let fractional = format!("{},\"eval_count\":4.2}}", base);
    assert!(decode(&fractional).is_none());

    let negative = format!("{},\"eval_count\":-1}}", base);
    assert!(decode(&negative).is_none());

    let huge = format!("{},\"eval_count\":99999999999999999999}}", base);
    assert!(decode(&huge).is_none());
}

#[test]
fn context_reads_as_an_integer_list() {
    let body = "{\"model\":\"m\",\"created_at\":\"t\",\"done\":true,\"response\":\"r\",\"context\":[7,8,9]}";
    assert_eq!(decode(body).unwrap().context, Some(vec![7, 8, 9]));
}

#[test]
fn missing_required_fields_fail_to_decode() {
    assert!(decode("{\"created_at\":\"t\",\"done\":true,\"response\":\"r\"}").is_none());
    assert!(decode("{\"model\":\"m\",\"done\":true,\"response\":\"r\"}").is_none());
    assert!(decode("{\"model\":\"m\",\"created_at\":\"t\",\"response\":\"r\"}").is_none());
    assert!(decode("{\"model\":\"m\",\"created_at\":\"t\",\"done\":true}").is_none());
}
