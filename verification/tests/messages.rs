//! Messages and roles: wire names, serialization, and builder validation.

use ollama_client::message::{Message, MessageBuilder, MessageBuilderError, Role};

#[test]
fn test_role() {
    let system = Role::System.to_json();
    let assistant = Role::Assistant.to_json();
    let user = Role::User.to_json();

    assert_eq!(system, "\"system\"");
    assert_eq!(assistant, "\"assistant\"");
    assert_eq!(user, "\"user\"")
}

#[test]
fn test_message() {
    let message = MessageBuilder::default()
        .content("hello")
        .role(Role::User)
        .build()
        .unwrap();

    let serialized = message.to_json();
    let expect = "{\"role\":\"user\",\"content\":\"hello\"}";
    assert_eq!(&serialized, expect);

    let message = MessageBuilder::default()
        .content("world")
        .role("assistant")
        .images(vec![String::from("test")])
        .build()
        .unwrap();

    let serialized = message.to_json();
    let expect = "{\"role\":\"assistant\",\"content\":\"world\",\"images\":[\"test\"]}";
    assert_eq!(&serialized, expect);

    let resp = MessageBuilder::default().content("world").build();
    assert_eq!(resp, Err(MessageBuilderError::UninitializedField("role")));
}

#[test]
fn role_names_parse_in_any_ascii_case() {
    assert_eq!(Role::parse("SYSTEM"), Some(Role::System));
    assert_eq!(Role::parse("User"), Some(Role::User));
    assert_eq!(Role::parse("assistant"), Some(Role::Assistant));
    assert_eq!(Role::parse("narrator"), None);
}

#[test]
fn message_content_is_escaped() {
    let message = Message {
        role: Role::User,
        content: String::from("a \"b\"\n\tc\\"),
        images: None,
    };
    let serialized = message.to_json();
    assert_eq!(
        serialized,
        "{\"role\":\"user\",\"content\":\"a \\\"b\\\"\\n\\tc\\\\\"}"
    );
}

#[test]
fn role_to_string_is_the_wire_name() {
    assert_eq!(Role::Assistant.to_string(), "assistant");
    assert_eq!(Role::System.to_string(), "system");
    assert_eq!(Role::User.to_string(), "user");
}
