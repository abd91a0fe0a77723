//! Request builders and request serialization.

use ollama_client::chat::ChatCompletionRequestBuilder;
use ollama_client::completion::CompletionRequestBuilder;
use ollama_client::create::CreateModelRequestBuilder;
use ollama_client::errors::OllamaError;
use ollama_client::generate::GenerateRequestBuilder;
use ollama_client::json::Json;
use ollama_client::message::{MessageBuilder, Role};
use ollama_client::options::OptionsBuilder;
use ollama_client::parser::parse_json;

#[test]
fn test_completion_test_generate_request() {
    let request = CompletionRequestBuilder::default()
        .model("llama3")
        .prompt("hello")
        .num_predict(1)
        .build()
        .unwrap();

    let serialized = request.to_json();
    println!("serialized: {}", serialized);
}

#[test]
fn test_generate_test_generate_request() {
    let request = GenerateRequestBuilder::default()
        .model("llama3")
        .prompt("hello")
        .num_predict(1)
        .build()
        .unwrap();

    let serialized = request.to_json();
    println!("serialized: {}", serialized);
}

#[test]
fn test_generate_request_builder() {
    let _ = GenerateRequestBuilder::default()
        .keep_alive(1)
        .mirostat(1)
        .build();
}

#[test]
fn completion_request_serializes_exactly() {
    let request = CompletionRequestBuilder::default()
        .model("llama3")
        .prompt("hello")
        .num_predict(1)
        .build()
        .unwrap();
    assert_eq!(
        request.to_json(),
        "{\"model\":\"llama3\",\"prompt\":\"hello\",\"options\":{\"num_predict\":1}}"
    );
}

#[test]
fn minimal_request_omits_every_absent_field() {
    let request = CompletionRequestBuilder::default()
        .model("m")
        .prompt("hi")
        .build()
        .unwrap();
    let serialized = request.to_json();
    assert_eq!(serialized, "{\"model\":\"m\",\"prompt\":\"hi\"}");
    assert!(!serialized.contains("null"));

    // Decoding the serialized form back shows exactly the two required keys.
    let chars: Vec<char> = serialized.chars().collect();
    match parse_json(&chars) {
        Some(Json::Obj(fields)) => {
            assert_eq!(fields.len(), 2);
            let k0: String = fields[0].0.iter().collect();
            let k1: String = fields[1].0.iter().collect();
            assert_eq!(k0, "model");
            assert_eq!(k1, "prompt");
        }
        other => panic!("expected an object, got {:?}", other),
    }
}

#[test]
fn generate_request_with_empty_options_omits_the_block() {
    let request = GenerateRequestBuilder::default()
        .model("m")
        .prompt("hi")
        .stream(false)
        .build()
        .unwrap();
    assert_eq!(
        request.to_json(),
        "{\"model\":\"m\",\"prompt\":\"hi\",\"stream\":false}"
    );
}

#[test]
fn chat_request_serializes_messages_in_order() {
    let messages = vec![
        MessageBuilder::default()
            .role(Role::System)
            .content("be brief")
            .build()
            .unwrap(),
        MessageBuilder::default()
            .role(Role::User)
            .content("hi")
            .build()
            .unwrap(),
    ];
    let request = ChatCompletionRequestBuilder::default()
        .model("llama3:8b")
        .messages(messages)
        .stream(false)
        .build()
        .unwrap();
    assert_eq!(
        request.to_json(),
        "{\"model\":\"llama3:8b\",\"messages\":[{\"role\":\"system\",\"content\":\"be brief\"},{\"role\":\"user\",\"content\":\"hi\"}],\"stream\":false}"
    );
}

#[test]
fn create_request_serializes_set_fields_only() {
    let request = CreateModelRequestBuilder::default()
        .name("mario")
        .modelfile("FROM llama3")
        .build()
        .unwrap();
    assert_eq!(
        request.to_json(),
        "{\"name\":\"mario\",\"modelfile\":\"FROM llama3\"}"
    );
}

#[test]
fn unset_required_fields_are_invalid_parameters() {
    match CompletionRequestBuilder::default().prompt("hi").build() {
        Err(OllamaError::InvalidParameter(d)) => assert_eq!(d, "model is not set"),
        other => panic!("expected an invalid-parameter error, got {:?}", other),
    }
    match CreateModelRequestBuilder::default().path("/m").build() {
        Err(OllamaError::InvalidParameter(d)) => assert_eq!(d, "name is not set"),
        other => panic!("expected an invalid-parameter error, got {:?}", other),
    }
}

#[test]
fn fractional_options_are_validated_as_number_literals() {
    let options = OptionsBuilder::default()
        .top_p("0.9")
        .temperature(2)
        .build()
        .unwrap();
    assert_eq!(options.to_json(), "{\"temperature\":2,\"top_p\":0.9}");

    match OptionsBuilder::default().top_p("fast").build() {
        Err(OllamaError::InvalidParameter(d)) => {
            assert_eq!(d, "top_p is not a JSON number literal")
        }
        other => panic!("expected an invalid-parameter error, got {:?}", other),
    }

    match CompletionRequestBuilder::default()
        .model("m")
        .prompt("p")
        .mirostat_eta("1.0e-3")
        .build()
    {
        Ok(req) => assert_eq!(
            req.to_json(),
            "{\"model\":\"m\",\"prompt\":\"p\",\"options\":{\"mirostat_eta\":1.0e-3}}"
        ),
        other => panic!("expected a request, got {:?}", other),
    }
}

#[test]
fn generate_request_serializes_context_bytes() {
    let request = GenerateRequestBuilder::default()
        .model("m")
        .prompt("p")
        .context(vec![1u8, 2, 255])
        .build()
        .unwrap();
    assert_eq!(
        request.to_json(),
        "{\"model\":\"m\",\"prompt\":\"p\",\"context\":[1,2,255]}"
    );
}
