//! The provider-independent side: what callers hand to a completion model
//! and what they get back.

use vstd::prelude::*;

verus! {

/// One turn of a conversation. `role` is free text; "system", "user" and
/// "assistant" are the recognised values.
#[derive(Debug)]
pub struct Message {
    pub role: String,
    pub content: String,
}

/// A document offered to the model as context. The additional properties
/// stand each under its name, no name twice.
#[derive(Debug)]
pub struct Document {
    pub id: String,
    pub text: String,
    pub additional_props: Vec<(String, String)>,
}

impl Document {
    /// No additional property is named twice.
    pub open spec fn wf(&self) -> bool {
        forall|i: int, j: int| 0 <= i < j < self.additional_props@.len()
            ==> (#[trigger] self.additional_props@[i]).0@ != (#[trigger] self.additional_props@[j]).0@
    }
}

/// A tool the model may call. `parameters` is a JSON-schema-like object with
/// a `properties` object and an optional `required` array.
#[derive(Debug)]
pub struct ToolDefinition {
    pub name: String,
    pub description: String,
    pub parameters: serde_json::Value,
}

/// Everything a completion call is made from, except the sampling
/// temperature, which travels beside the request.
#[derive(Debug)]
pub struct CompletionRequest {
    pub prompt: String,
    pub preamble: Option<String>,
    pub chat_history: Vec<Message>,
    pub documents: Vec<Document>,
    pub tools: Vec<ToolDefinition>,
    pub max_tokens: Option<u64>,
    pub additional_params: Option<serde_json::Value>,
}

/// What the model chose to do: answer in text, or call one tool.
#[derive(Debug)]
pub enum ModelChoice {
    Message(String),
    ToolCall(String, serde_json::Value),
}

/// The normalised choice together with the provider's full response.
#[derive(Debug)]
pub struct CompletionResponse<T> {
    pub choice: ModelChoice,
    pub raw_response: T,
}

/// Why a completion call failed.
#[derive(Debug)]
pub enum CompletionError {
    /// The request did not reach the provider, or the provider answered with
    /// a failing HTTP status. Holds the transport's own description.
    HttpError(String),
    /// The body fitted neither the expected payload nor the provider's error
    /// object.
    ResponseError(String),
    /// The provider reported an error; holds its message unchanged.
    ProviderError(String),
}

} // verus!
