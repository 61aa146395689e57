use peeksy::json::{Json, Member};
use peeksy::manager::ai::{
    CaptionError, CaptionReply, OpenAI, CONTENT_TYPE, ENDPOINT, FALLBACK_NAME, SYSTEM_INSTRUCTION,
};

fn provider() -> OpenAI {
    OpenAI::new("sk-test".to_string(), "Name this image.".to_string(), "gpt-4o".to_string())
}

fn reply(status: u16, body: &str) -> CaptionReply {
    CaptionReply { status, body: body.to_string() }
}

fn text_of(doc: &Json) -> Option<&str> {
    doc.as_text().map(|s| s.as_str())
}

#[test]
fn authorization_is_the_bearer_scheme() {
    assert_eq!(provider().authorization(), "Bearer sk-test");
}

#[test]
fn payload_has_the_shape_of_a_chat_request() {
    let doc = provider().payload("QUJD");
    assert_eq!(text_of(doc.member("model").unwrap()), Some("gpt-4o"));
    let messages = doc.member("messages").unwrap();
    assert!(messages.item(2).is_none());
    let system = messages.item(0).unwrap();
    assert_eq!(text_of(system.member("role").unwrap()), Some("system"));
    assert_eq!(text_of(system.member("content").unwrap()), Some(SYSTEM_INSTRUCTION));
    let user = messages.item(1).unwrap();
    assert_eq!(text_of(user.member("role").unwrap()), Some("user"));
    let parts = user.member("content").unwrap();
    assert!(parts.item(2).is_none());
    let text = parts.item(0).unwrap();
    assert_eq!(text_of(text.member("type").unwrap()), Some("text"));
    assert_eq!(text_of(text.member("text").unwrap()), Some("Name this image."));
    let image = parts.item(1).unwrap();
    assert_eq!(text_of(image.member("type").unwrap()), Some("image_url"));
    let url = image.member("image_url").unwrap();
    assert_eq!(text_of(url.member("url").unwrap()), Some("data:image/png;base64,QUJD"));
    assert_eq!(text_of(url.member("detail").unwrap()), Some("low"));
}

#[test]
fn system_instruction_asks_for_a_bare_file_name() {
    assert!(SYSTEM_INSTRUCTION.starts_with("You are a filename generation bot."));
    assert!(SYSTEM_INSTRUCTION.ends_with("filename of 3 to 8 words in plain text."));
    assert!(SYSTEM_INSTRUCTION.contains("No explanations.\n"));
}

#[test]
fn request_carries_the_image_in_base64() {
    let request = provider().make_ai_request(b"hello");
    assert_eq!(request.url, ENDPOINT);
    assert_eq!(request.url, "https://api.openai.com/v1/chat/completions");
    assert_eq!(request.authorization, "Bearer sk-test");
    assert_eq!(request.content_type, CONTENT_TYPE);
    assert_eq!(request.content_type, "application/json");
    let sent: serde_json::Value = serde_json::from_str(&request.body).unwrap();
    let expected = format!(
        "{{\"model\":\"gpt-4o\",\"messages\":[{{\"role\":\"system\",\"content\":{}}},{{\"role\":\"user\",\"content\":[{{\"type\":\"text\",\"text\":\"Name this image.\"}},{{\"type\":\"image_url\",\"image_url\":{{\"url\":\"data:image/png;base64,aGVsbG8=\",\"detail\":\"low\"}}}}]}}]}}",
        serde_json::to_string(SYSTEM_INSTRUCTION).unwrap()
    );
    let wanted: serde_json::Value = serde_json::from_str(&expected).unwrap();
    assert_eq!(sent, wanted);
    assert!(!request.body.contains('\n'));
    assert!(request.body.contains("data:image/png;base64,aGVsbG8=\""));
}

#[test]
fn base64_pads_and_handles_the_empty_image() {
    let one = provider().make_ai_request(&[0xff]);
    assert!(one.body.contains("base64,/w==\""));
    let none = provider().make_ai_request(&[]);
    assert!(none.body.contains("base64,\""));
    let three = provider().make_ai_request(&[0, 0x10, 0x83]);
    assert!(three.body.contains("base64,ABCD\""));
}

#[test]
fn name_is_the_first_choice_trimmed() {
    let body = "{\"id\":\"x\",\"created\":1700000000,\"choices\":[{\"index\":0,\"message\":{\"role\":\"assistant\",\"content\":\"  a-red-bicycle \\n\"}},{\"message\":{\"content\":\"second\"}}],\"usage\":{\"total_tokens\":12.5}}";
    let name = provider().get_name(&reply(200, body));
    assert_eq!(name.unwrap(), "a-red-bicycle");
}

#[test]
fn unexpected_shapes_give_the_fallback_name() {
    for body in [
        "{}",
        "[]",
        "null",
        "\"text\"",
        "{\"choices\":[]}",
        "{\"choices\":{}}",
        "{\"choices\":[{}]}",
        "{\"choices\":[{\"message\":{}}]}",
        "{\"choices\":[{\"message\":{\"content\":null}}]}",
        "{\"choices\":[{\"message\":{\"content\":42}}]}",
        "{\"choices\":[{\"message\":\"content\"}]}",
        "{\"error\":{\"message\":\"quota\"}}",
    ] {
        let name = provider().get_name(&reply(200, body)).unwrap();
        assert_eq!(name, FALLBACK_NAME, "for {}", body);
        assert_eq!(name, "unknown-name");
    }
}

#[test]
fn a_body_that_is_no_json_is_an_error() {
    for body in ["", "not json", "{\"choices\":", "{} trailing"] {
        let name = provider().get_name(&reply(200, body));
        assert!(matches!(name, Err(CaptionError::Malformed)), "for {:?}", body);
    }
}

#[test]
fn a_status_outside_2xx_is_an_error() {
    let good = "{\"choices\":[{\"message\":{\"content\":\"name\"}}]}";
    for status in [0u16, 100, 199, 300, 301, 400, 401, 429, 500, 503] {
        let name = provider().get_name(&reply(status, good));
        match name {
            Err(CaptionError::Status { status: s }) => assert_eq!(s, status),
            other => panic!("status {} gave {:?}", status, other),
        }
    }
    for status in [200u16, 201, 204, 299] {
        assert_eq!(provider().get_name(&reply(status, good)).unwrap(), "name");
    }
}

#[test]
fn later_members_win_and_lists_are_indexed() {
    let doc = Json::object(vec![
        Member { key: "a".to_string(), value: Json::text("first") },
        Member { key: "b".to_string(), value: Json::list(vec![Json::Null, Json::Bool(true)]) },
        Member { key: "a".to_string(), value: Json::text("second") },
    ]);
    assert_eq!(text_of(doc.member("a").unwrap()), Some("second"));
    assert!(doc.member("c").is_none());
    assert!(doc.member("").is_none());
    let list = doc.member("b").unwrap();
    assert!(matches!(list.item(0), Some(Json::Null)));
    assert!(matches!(list.item(1), Some(Json::Bool(true))));
    assert!(list.item(2).is_none());
    assert!(list.member("a").is_none());
    assert!(doc.item(0).is_none());
    assert!(doc.as_text().is_none());
    assert!(Json::Number("1".to_string()).as_text().is_none());
}

#[test]
fn reply_name_reads_a_document() {
    let message = Json::object(vec![Member {
        key: "content".to_string(),
        value: Json::text("\tblue-sky-over-hills  "),
    }]);
    let choice = Json::object(vec![Member { key: "message".to_string(), value: message }]);
    let doc = Json::object(vec![Member {
        key: "choices".to_string(),
        value: Json::list(vec![choice]),
    }]);
    assert_eq!(OpenAI::reply_name(&doc), "blue-sky-over-hills");
    assert_eq!(OpenAI::reply_name(&Json::Null), "unknown-name");
}
