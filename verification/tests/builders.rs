use skailar::json::JsonValue;
use skailar::types::chat::require_model;
use skailar::types::{
    BuildError, ChatMessage, ContentPart, ImageGenerationRequest, ImageUrl, MessageContent, Mime,
    Role, SpeechRequest, Tool, ToolChoice, TranscriptionRequest, Voice,
};

#[test]
fn transcription_builder_requires_payload() {
    assert_eq!(TranscriptionRequest::builder().build(), Err(BuildError::MissingInput));
    let req = TranscriptionRequest::builder().base64("AAAA").mime(Mime::Wav).build().unwrap();
    assert_eq!(req.base64, "AAAA");
    assert_eq!(req.mime, Some(Mime::Wav));
    let req = TranscriptionRequest::builder().base64(String::from("BB")).build().unwrap();
    assert_eq!(req.mime, None);
}

#[test]
fn speech_builder_requires_input() {
    assert_eq!(SpeechRequest::builder().voice(Voice::Nova).build(), Err(BuildError::MissingInput));
    let req = SpeechRequest::builder().input("hello").voice(Voice::Alloy).build().unwrap();
    assert_eq!(req.input, "hello");
    assert_eq!(req.voice, Some(Voice::Alloy));
}

#[test]
fn image_builder_checks_model_then_prompt() {
    assert_eq!(
        ImageGenerationRequest::builder().prompt("a cat").build(),
        Err(BuildError::MissingModel)
    );
    assert_eq!(ImageGenerationRequest::builder().build(), Err(BuildError::MissingModel));
    assert_eq!(
        ImageGenerationRequest::builder().model("gpt-image-1").build(),
        Err(BuildError::MissingPrompt)
    );
    let req = ImageGenerationRequest::builder()
        .model("gpt-image-1")
        .prompt("a cat")
        .n(2)
        .size("1024x1024")
        .quality("high")
        .background("transparent")
        .build()
        .unwrap();
    assert_eq!(req.model, "gpt-image-1");
    assert_eq!(req.prompt, "a cat");
    assert_eq!(req.n, Some(2));
    assert_eq!(req.size.as_deref(), Some("1024x1024"));
    assert_eq!(req.quality.as_deref(), Some("high"));
    assert_eq!(req.background.as_deref(), Some("transparent"));
}

#[test]
fn build_error_messages() {
    assert_eq!(BuildError::MissingModel.to_display_string(), "`model` is required");
    assert_eq!(BuildError::MissingPrompt.to_display_string(), "`prompt` is required");
    assert_eq!(BuildError::MissingInput.to_display_string(), "`input` is required");
}

#[test]
fn message_constructors_set_roles() {
    let m = ChatMessage::user("hi");
    assert_eq!(m.role, Role::User);
    assert_eq!(m.content, Some(MessageContent::Text("hi".to_string())));
    assert_eq!(m.tool_call_id, None);
    assert_eq!(ChatMessage::system("be brief").role, Role::System);
    assert_eq!(ChatMessage::assistant(String::from("ok")).role, Role::Assistant);
}

#[test]
fn tool_message_carries_call_id() {
    let msg = ChatMessage::tool("call_1", "42");
    assert_eq!(msg.role, Role::Tool);
    assert_eq!(msg.tool_call_id.as_deref(), Some("call_1"));
    assert_eq!(msg.content, Some(MessageContent::Text("42".to_string())));
}

#[test]
fn multimodal_content_parts() {
    let msg = ChatMessage::user(vec![
        ContentPart::text("look:"),
        ContentPart::image_url("https://example.com/a.png"),
    ]);
    match msg.content {
        Some(MessageContent::Parts(parts)) => {
            assert_eq!(parts.len(), 2);
            assert_eq!(parts[0], ContentPart::Text { text: "look:".to_string() });
            assert_eq!(
                parts[1],
                ContentPart::ImageUrl {
                    image_url: ImageUrl {
                        url: "https://example.com/a.png".to_string(),
                        detail: None,
                    }
                }
            );
        }
        other => panic!("expected parts, got {other:?}"),
    }
}

#[test]
fn tool_choices() {
    assert_eq!(ToolChoice::auto(), ToolChoice::Mode("auto".to_string()));
    assert_eq!(ToolChoice::none(), ToolChoice::Mode("none".to_string()));
    assert_eq!(ToolChoice::required(), ToolChoice::Mode("required".to_string()));
    match ToolChoice::function("get_weather") {
        ToolChoice::Named(n) => {
            assert_eq!(n.kind, "function");
            assert_eq!(n.function.name, "get_weather");
        }
        other => panic!("expected named choice, got {other:?}"),
    }
}

#[test]
fn function_tool_definition() {
    let params = JsonValue::parse(r#"{"type":"object"}"#).unwrap();
    let tool = Tool::function("get_weather", "Weather by city", params.clone());
    assert_eq!(tool.kind, "function");
    assert_eq!(tool.function.name, "get_weather");
    assert_eq!(tool.function.description.as_deref(), Some("Weather by city"));
    assert_eq!(tool.function.parameters, Some(params));
}

#[test]
fn builders_keep_the_last_value_set() {
    let req = TranscriptionRequest::builder()
        .mime(Mime::Wav)
        .base64("A")
        .base64("B")
        .mime(Mime::Mp3)
        .build()
        .unwrap();
    assert_eq!((req.base64.as_str(), req.mime), ("B", Some(Mime::Mp3)));
    let req = SpeechRequest::builder().input("x").voice(Voice::Ash).input("y").build().unwrap();
    assert_eq!((req.input.as_str(), req.voice), ("y", Some(Voice::Ash)));
    let req = ImageGenerationRequest::builder()
        .prompt("p1")
        .model("m1")
        .n(1)
        .model("m2")
        .prompt("p2")
        .n(3)
        .build()
        .unwrap();
    assert_eq!((req.model.as_str(), req.prompt.as_str(), req.n), ("m2", "p2", Some(3)));
    assert_eq!(req.size, None);
}

#[test]
fn system_and_assistant_differ_from_user_only_in_role() {
    let user = ChatMessage::user("hi");
    let mut system = ChatMessage::system("hi");
    system.role = Role::User;
    assert_eq!(system, user);
    let mut assistant = ChatMessage::assistant("hi");
    assistant.role = Role::User;
    assert_eq!(assistant, user);
}

#[test]
fn require_model_gives_missing_model() {
    assert_eq!(require_model(None), Err(BuildError::MissingModel));
    assert_eq!(require_model(Some("m".to_string())), Ok("m".to_string()));
}
