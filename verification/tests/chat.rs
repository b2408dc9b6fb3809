use cohere_adapter::chat::{
    convert_history, convert_tools, ChatHistory, CompletionModel, CompletionResponse, Message, ToolCall,
    COMMAND, COMMAND_LIGHT, COMMAND_LIGHT_NIGHTLY, COMMAND_NIGHTLY, COMMAND_R, COMMAND_R_PLUS,
};
use cohere_adapter::client::{classify, ApiErrorResponse, ApiResponse, Client};
use cohere_adapter::completion;
use cohere_adapter::completion::{CompletionError, ModelChoice};
use cohere_adapter::tools::SchemaError;

fn json(text: &str) -> serde_json::Value {
    serde_json::from_str(text).unwrap()
}

fn response(text: &str, tool_calls: Vec<ToolCall>) -> CompletionResponse {
    CompletionResponse {
        text: text.to_string(),
        generation_id: "g1".to_string(),
        citations: vec![],
        documents: vec![],
        is_search_required: None,
        search_queries: vec![],
        search_results: vec![],
        finish_reason: "COMPLETE".to_string(),
        tool_calls,
        chat_history: vec![ChatHistory { role: "USER".to_string(), message: "hi".to_string() }],
    }
}

fn generic_message(role: &str, content: &str) -> completion::Message {
    completion::Message { role: role.to_string(), content: content.to_string() }
}

fn tool(name: &str, schema: &str) -> completion::ToolDefinition {
    completion::ToolDefinition {
        name: name.to_string(),
        description: format!("the {} tool", name),
        parameters: json(schema),
    }
}

fn request(tools: Vec<completion::ToolDefinition>) -> completion::CompletionRequest {
    completion::CompletionRequest {
        prompt: "What is up?".to_string(),
        preamble: Some("Be brief.".to_string()),
        chat_history: vec![
            generic_message("system", "s"),
            generic_message("user", "u"),
            generic_message("assistant", "a"),
        ],
        documents: vec![completion::Document {
            id: "d1".to_string(),
            text: "body".to_string(),
            additional_props: vec![("lang".to_string(), "en".to_string())],
        }],
        tools,
        max_tokens: None,
        additional_params: Some(json(r#"{"k":1}"#)),
    }
}

#[test]
fn model_name_constants() {
    assert_eq!(COMMAND_R_PLUS, "comman-r-plus");
    assert_eq!(COMMAND_R, "command-r");
    assert_eq!(COMMAND, "command");
    assert_eq!(COMMAND_NIGHTLY, "command-nightly");
    assert_eq!(COMMAND_LIGHT, "command-light");
    assert_eq!(COMMAND_LIGHT_NIGHTLY, "command-light-nightly");
}

#[test]
fn response_without_tool_calls_is_a_message() {
    let done = completion::CompletionResponse::from(response("hello there", vec![]));
    match done.choice {
        ModelChoice::Message(text) => assert_eq!(text, "hello there"),
        other => panic!("unexpected: {:?}", other),
    }
    assert_eq!(done.raw_response.text, "hello there");
    assert_eq!(done.raw_response.finish_reason, "COMPLETE");
    assert_eq!(done.raw_response.chat_history.len(), 1);
}

#[test]
fn first_tool_call_is_the_choice() {
    let calls = vec![
        ToolCall { name: "search".to_string(), parameters: json(r#"{"q":"x"}"#) },
        ToolCall { name: "other".to_string(), parameters: json("{}") },
    ];
    let done = completion::CompletionResponse::from(response("ignored", calls));
    match done.choice {
        ModelChoice::ToolCall(name, parameters) => {
            assert_eq!(name, "search");
            assert_eq!(parameters, json(r#"{"q":"x"}"#));
        }
        other => panic!("unexpected: {:?}", other),
    }
    assert_eq!(done.raw_response.tool_calls.len(), 2);
    assert_eq!(done.raw_response.tool_calls[1].name, "other");
}

#[test]
fn roles_are_mapped() {
    assert_eq!(Message::from(generic_message("assistant", "x")).role, "CHATBOT");
    assert_eq!(Message::from(generic_message("unknown-value", "x")).role, "USER");
    assert_eq!(Message::from(generic_message("system", "x")).role, "SYSTEM");
    assert_eq!(Message::from(generic_message("user", "x")).role, "USER");
    assert_eq!(Message::from(generic_message("Assistant", "x")).role, "USER");
    assert_eq!(Message::from(generic_message("", "x")).role, "USER");
    assert_eq!(Message::from(generic_message("user", "the content")).message, "the content");
}

#[test]
fn history_keeps_its_order() {
    let converted = convert_history(vec![
        generic_message("user", "one"),
        generic_message("assistant", "two"),
        generic_message("tool", "three"),
    ]);
    let roles: Vec<&str> = converted.iter().map(|m| m.role.as_str()).collect();
    let texts: Vec<&str> = converted.iter().map(|m| m.message.as_str()).collect();
    assert_eq!(roles, vec!["USER", "CHATBOT", "USER"]);
    assert_eq!(texts, vec!["one", "two", "three"]);
}

#[test]
fn chat_request_is_built_field_by_field() {
    let model = Client::new("k").completion_model(COMMAND_R);
    assert_eq!(model.model, "command-r");
    let tools = vec![
        tool("first", r#"{"properties":{"x":{"type":"string","description":"d"}},"required":["x"]}"#),
        tool("second", r#"{"properties":{}}"#),
    ];
    let chat = model.chat_request(request(tools));
    assert_eq!(chat.model, "command-r");
    assert_eq!(chat.preamble.as_deref(), Some("Be brief."));
    assert_eq!(chat.message, "What is up?");
    assert_eq!(chat.documents.len(), 1);
    assert_eq!(chat.documents[0].id, "d1");
    assert_eq!(chat.chat_history.len(), 3);
    assert_eq!(chat.chat_history[0].role, "SYSTEM");
    assert_eq!(chat.chat_history[1].role, "USER");
    assert_eq!(chat.chat_history[2].role, "CHATBOT");
    assert_eq!(chat.chat_history[2].message, "a");
    assert_eq!(chat.tools.len(), 2);
    assert_eq!(chat.tools[0].name, "first");
    assert_eq!(chat.tools[0].parameter_definitions.len(), 1);
    assert_eq!(chat.tools[1].name, "second");
    assert!(chat.tools[1].parameter_definitions.is_empty());
    assert_eq!(chat.additional_params, Some(json(r#"{"k":1}"#)));
}

#[test]
fn chat_request_reports_the_first_bad_tool() {
    let model = CompletionModel::new(Client::new("k"), COMMAND);
    let tools = vec![
        tool("good", r#"{"properties":{}}"#),
        tool("bad", r#"{"properties":[]}"#),
        tool("worse", r#"{}"#),
    ];
    assert!(matches!(model.try_chat_request(request(tools)), Err(SchemaError::PropertiesNotObject)));
    assert!(matches!(convert_tools(vec![tool("worse", "{}")]), Err(SchemaError::MissingProperties)));
    assert!(model.try_chat_request(request(vec![])).is_ok());
}

#[test]
fn completion_outcome_of_a_payload() {
    let done = CompletionModel::completion_outcome(Ok(Some(ApiResponse::Success(response("hi", vec![])))))
        .unwrap();
    assert!(matches!(done.choice, ModelChoice::Message(ref t) if t == "hi"));
    assert_eq!(done.raw_response.generation_id, "g1");
}

#[test]
fn completion_outcome_of_a_provider_error() {
    let outcome = Ok(Some(ApiResponse::Failure(ApiErrorResponse { message: "rate limited".to_string() })));
    match CompletionModel::completion_outcome(outcome) {
        Err(CompletionError::ProviderError(text)) => assert_eq!(text, "rate limited"),
        other => panic!("unexpected: {:?}", other),
    }
}

#[test]
fn completion_outcome_of_a_transport_failure() {
    match CompletionModel::completion_outcome(Err("503 Service Unavailable".to_string())) {
        Err(CompletionError::HttpError(text)) => assert_eq!(text, "503 Service Unavailable"),
        other => panic!("unexpected: {:?}", other),
    }
}

#[test]
fn body_matching_neither_shape_is_a_response_error() {
    let body = json(r#"{"status":"weird"}"#);
    let sorted = classify(None::<CompletionResponse>, &body);
    assert!(sorted.is_none());
    let result = CompletionModel::completion_outcome(Ok(sorted));
    assert!(matches!(result, Err(CompletionError::ResponseError(_))));
    assert!(!matches!(result, Err(CompletionError::ProviderError(_))));
}
