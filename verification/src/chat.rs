//! The completion side of the adapter: the chat request that is sent, the
//! provider's response, and the choice that is made of it.

use vstd::prelude::*;
use crate::client::{ApiResponse, Client, Outcome, UNRECOGNISED_RESPONSE};
use crate::completion;
use crate::completion::{CompletionError, ModelChoice};
use crate::json::{json_shape, value_clone};
use crate::text::str_eq;
use crate::tools::{schema_fault, schema_ok, SchemaError, ToolDefinition};
use crate::vecs::reversed;

verus! {

/// `command-r-plus` completion model. The text lacks a `d`; it is what has
/// always been sent under this name, and is kept until the provider's own
/// spelling is confirmed.
pub const COMMAND_R_PLUS: &'static str = "comman-r-plus";

/// `command-r` completion model
pub const COMMAND_R: &'static str = "command-r";

/// `command` completion model
pub const COMMAND: &'static str = "command";

/// `command-nightly` completion model
pub const COMMAND_NIGHTLY: &'static str = "command-nightly";

/// `command-light` completion model
pub const COMMAND_LIGHT: &'static str = "command-light";

/// `command-light-nightly` completion model
pub const COMMAND_LIGHT_NIGHTLY: &'static str = "command-light-nightly";

/// A span of the answer and the documents that support it.
#[derive(Debug)]
pub struct Citation {
    pub start: u32,
    pub end: u32,
    pub text: String,
    pub document_ids: Vec<String>,
}

/// A document that the provider cites, with whatever else it says of it,
/// each property under its name, no name twice.
#[derive(Debug)]
pub struct Document {
    pub id: String,
    pub additional_prop: Vec<(String, serde_json::Value)>,
}

impl Document {
    /// No additional property is named twice.
    pub open spec fn wf(&self) -> bool {
        forall|i: int, j: int| 0 <= i < j < self.additional_prop@.len()
            ==> (#[trigger] self.additional_prop@[i]).0@ != (#[trigger] self.additional_prop@[j]).0@
    }
}

/// A search that the provider made.
#[derive(Debug)]
pub struct SearchQuery {
    pub text: String,
    pub generation_id: String,
}

/// The connector that a search went through.
#[derive(Debug)]
pub struct Connector {
    pub id: String,
}

/// What a search found.
#[derive(Debug)]
pub struct SearchResult {
    pub search_query: SearchQuery,
    pub connector: Connector,
    pub document_ids: Vec<String>,
    pub error_message: Option<String>,
    pub continue_on_failure: bool,
}

/// A tool that the model wants called, with its arguments.
#[derive(Debug)]
pub struct ToolCall {
    pub name: String,
    pub parameters: serde_json::Value,
}

/// One turn of the conversation as the provider echoes it.
#[derive(Debug)]
pub struct ChatHistory {
    pub role: String,
    pub message: String,
}

/// The payload of a chat response.
#[derive(Debug)]
pub struct CompletionResponse {
    pub text: String,
    pub generation_id: String,
    pub citations: Vec<Citation>,
    pub documents: Vec<Document>,
    pub is_search_required: Option<bool>,
    pub search_queries: Vec<SearchQuery>,
    pub search_results: Vec<SearchResult>,
    pub finish_reason: String,
    pub tool_calls: Vec<ToolCall>,
    pub chat_history: Vec<ChatHistory>,
}

/// One turn of the conversation as the provider takes it.
#[derive(Debug)]
pub struct Message {
    pub role: String,
    pub message: String,
}

/// The provider's role for a generic one: "system" and "assistant" have
/// their own, every other text is a user's.
pub open spec fn vendor_role(role: Seq<char>) -> Seq<char> {
    if role == "system"@ {
        "SYSTEM"@
    } else if role == "assistant"@ {
        "CHATBOT"@
    } else {
        "USER"@
    }
}

/// An assistant's turn is the chatbot's, a system turn the system's, and a
/// turn of any other role a user's.
pub proof fn lemma_vendor_roles(role: Seq<char>)
    ensures
        vendor_role("assistant"@) == "CHATBOT"@,
        vendor_role("system"@) == "SYSTEM"@,
        role != "assistant"@ && role != "system"@ ==> vendor_role(role) == "USER"@,
{
    reveal_strlit("assistant");
    reveal_strlit("system");
    assert("assistant"@.len() != "system"@.len());
}

impl Message {
    /// The provider's form of a generic message: the role mapped, the
    /// content unchanged.
    pub fn from(message: completion::Message) -> (r: Message)
        ensures
            r.role@ == vendor_role(message.role@),
            r.message == message.content,
    {
        let role = if str_eq(message.role.as_str(), "system") {
            "SYSTEM".to_owned()
        } else if str_eq(message.role.as_str(), "assistant") {
            "CHATBOT".to_owned()
        } else {
            "USER".to_owned()
        };
        Message { role, message: message.content }
    }
}

/// The choice that a response stands for: its first tool call if it has any,
/// its text otherwise.
pub open spec fn choice_of(response: CompletionResponse) -> ModelChoice {
    if response.tool_calls@.len() > 0 {
        ModelChoice::ToolCall(response.tool_calls@[0].name, response.tool_calls@[0].parameters)
    } else {
        ModelChoice::Message(response.text)
    }
}

/// A response without tool calls stands for its text.
pub proof fn lemma_text_without_tool_calls(response: CompletionResponse)
    requires
        response.tool_calls@.len() == 0,
    ensures
        choice_of(response) == ModelChoice::Message(response.text),
{
}

/// A response with tool calls stands for the first of them, whatever the
/// others are and whatever its text is.
pub proof fn lemma_first_tool_call_decides(a: CompletionResponse, b: CompletionResponse)
    requires
        a.tool_calls@.len() > 0,
        b.tool_calls@.len() > 0,
        a.tool_calls@[0] == b.tool_calls@[0],
    ensures
        choice_of(a) == choice_of(b),
        choice_of(a) == ModelChoice::ToolCall(a.tool_calls@[0].name, a.tool_calls@[0].parameters),
{
}

impl completion::CompletionResponse<CompletionResponse> {
    /// The generic response for a provider's: the choice that it stands for,
    /// and the response itself, untouched.
    pub fn from(response: CompletionResponse) -> (r: completion::CompletionResponse<CompletionResponse>)
        ensures
            r.choice == choice_of(response),
            r.raw_response == response,
    {
        let choice = if response.tool_calls.len() > 0 {
            ModelChoice::ToolCall(
                response.tool_calls[0].name.clone(),
                value_clone(&response.tool_calls[0].parameters),
            )
        } else {
            ModelChoice::Message(response.text.clone())
        };
        completion::CompletionResponse { choice, raw_response: response }
    }
}

/// The body of a chat request, before the caller's additional parameters are
/// laid over it.
#[derive(Debug)]
pub struct ChatRequest {
    pub model: String,
    pub preamble: Option<String>,
    pub message: String,
    pub documents: Vec<completion::Document>,
    pub chat_history: Vec<Message>,
    pub tools: Vec<ToolDefinition>,
    pub additional_params: Option<serde_json::Value>,
}

/// A completion model of one client. The model's name is free text.
#[derive(Debug, Clone)]
pub struct CompletionModel {
    pub client: Client,
    pub model: String,
}

/// Every tool of the list has a convertible schema.
pub open spec fn tools_ok(tools: Seq<completion::ToolDefinition>) -> bool {
    forall|i: int| 0 <= i < tools.len() ==> schema_ok(json_shape((#[trigger] tools[i]).parameters))
}

/// `e` names what is wrong with the first tool of the list that has a
/// schema that cannot be converted.
pub open spec fn first_fault(e: SchemaError, tools: Seq<completion::ToolDefinition>) -> bool {
    exists|i: int|
        0 <= i < tools.len() && tools_ok(tools.subrange(0, i)) && schema_fault(
            e,
            json_shape((#[trigger] tools[i]).parameters),
        )
}

/// `chat` is the request body for `request` under the model `model`.
pub open spec fn chat_matches(chat: ChatRequest, model: String, request: completion::CompletionRequest) -> bool {
    &&& chat.model == model
    &&& chat.preamble == request.preamble
    &&& chat.message == request.prompt
    &&& chat.documents == request.documents
    &&& chat.additional_params == request.additional_params
    &&& chat.chat_history@.len() == request.chat_history@.len()
    &&& forall|i: int| 0 <= i < chat.chat_history@.len() ==> {
        &&& (#[trigger] chat.chat_history@[i]).role@ == vendor_role(request.chat_history@[i].role@)
        &&& chat.chat_history@[i].message == request.chat_history@[i].content
    }
    &&& chat.tools@.len() == request.tools@.len()
    &&& forall|i: int| 0 <= i < chat.tools@.len() ==> {
        &&& (#[trigger] chat.tools@[i]).name == request.tools@[i].name
        &&& chat.tools@[i].description == request.tools@[i].description
        &&& chat.tools@[i].describes(json_shape(request.tools@[i].parameters))
    }
}

/// The provider's form of a conversation, turn by turn.
pub fn convert_history(history: Vec<completion::Message>) -> (r: Vec<Message>)
    ensures
        r@.len() == history@.len(),
        forall|i: int| 0 <= i < r@.len() ==> {
            &&& (#[trigger] r@[i]).role@ == vendor_role(history@[i].role@)
            &&& r@[i].message == history@[i].content
        },
{
    let ghost n = history@.len() as int;
    let mut rest = reversed(history);
    let mut out: Vec<Message> = Vec::new();
    while rest.len() > 0
        invariant
            n == history@.len(),
            rest@.len() + out@.len() == n,
            forall|j: int| 0 <= j < rest@.len() ==> rest@[j] == history@[n - 1 - j],
            forall|j: int| 0 <= j < out@.len() ==> {
                &&& (#[trigger] out@[j]).role@ == vendor_role(history@[j].role@)
                &&& out@[j].message == history@[j].content
            },
        decreases rest.len(),
    {
        let turn = rest.pop().unwrap();
        out.push(Message::from(turn));
    }
    out
}

/// The provider's form of a list of tools, or what is wrong with the first
/// one that cannot be converted.
pub fn convert_tools(tools: Vec<completion::ToolDefinition>) -> (r: Result<Vec<ToolDefinition>, SchemaError>)
    ensures
        r is Ok <==> tools_ok(tools@),
        match r {
            Ok(converted) => {
                &&& converted@.len() == tools@.len()
                &&& forall|i: int| 0 <= i < converted@.len() ==> {
                    &&& (#[trigger] converted@[i]).name == tools@[i].name
                    &&& converted@[i].description == tools@[i].description
                    &&& converted@[i].describes(json_shape(tools@[i].parameters))
                }
            },
            Err(e) => first_fault(e, tools@),
        },
{
    let ghost n = tools@.len() as int;
    let mut rest = reversed(tools);
    let mut out: Vec<ToolDefinition> = Vec::new();
    while rest.len() > 0
        invariant
            n == tools@.len(),
            rest@.len() + out@.len() == n,
            forall|j: int| 0 <= j < rest@.len() ==> rest@[j] == tools@[n - 1 - j],
            forall|j: int| 0 <= j < out@.len() ==> {
                &&& schema_ok(json_shape((#[trigger] tools@[j]).parameters))
            },
            forall|j: int| 0 <= j < out@.len() ==> {
                &&& (#[trigger] out@[j]).name == tools@[j].name
                &&& out@[j].description == tools@[j].description
                &&& out@[j].describes(json_shape(tools@[j].parameters))
            },
        decreases rest.len(),
    {
        let ghost at = out@.len() as int;
        let tool = rest.pop().unwrap();
        assert(tool == tools@[at]);
        match ToolDefinition::try_from_generic(tool) {
            Ok(converted) => {
                out.push(converted);
            },
            Err(e) => {
                proof {
                    assert(tools_ok(tools@.subrange(0, at)));
                    assert(schema_fault(e, json_shape(tools@[at].parameters)));
                    assert(!schema_ok(json_shape(tools@[at].parameters)));
                }
                return Err(e);
            },
        }
    }
    Ok(out)
}

impl CompletionModel {
    /// A completion model of `client`.
    pub fn new(client: Client, model: &str) -> (r: CompletionModel)
        ensures
            r.client == client,
            r.model@ == model@,
    {
        CompletionModel { client, model: model.to_owned() }
    }

    /// The body of the chat request for `request`, or what is wrong with the
    /// first tool whose schema cannot be converted.
    pub fn try_chat_request(&self, request: completion::CompletionRequest) -> (r: Result<ChatRequest, SchemaError>)
        ensures
            r is Ok <==> tools_ok(request.tools@),
            match r {
                Ok(chat) => chat_matches(chat, self.model, request),
                Err(e) => first_fault(e, request.tools@),
            },
    {
        let tools = match convert_tools(request.tools) {
            Ok(t) => t,
            Err(e) => { return Err(e); },
        };
        Ok(
            ChatRequest {
                model: self.model.clone(),
                preamble: request.preamble,
                message: request.prompt,
                documents: request.documents,
                chat_history: convert_history(request.chat_history),
                tools,
                additional_params: request.additional_params,
            },
        )
    }

    /// The body of the chat request for a request whose tools all have
    /// convertible schemas.
    pub fn chat_request(&self, request: completion::CompletionRequest) -> (r: ChatRequest)
        requires
            tools_ok(request.tools@),
        ensures
            chat_matches(r, self.model, request),
    {
        match self.try_chat_request(request) {
            Ok(chat) => chat,
            Err(_) => {
                proof {
                    assert(false);
                }
                unreached()
            },
        }
    }

    /// What a call returns, given what came of the request. A transport
    /// failure, a body that fits no shape and an error that the provider
    /// reported each give their own error; a payload gives the choice that
    /// it stands for, beside the payload itself.
    pub fn completion_outcome(outcome: Outcome<CompletionResponse>) -> (r: Result<
        completion::CompletionResponse<CompletionResponse>,
        CompletionError,
    >)
        ensures
            match outcome {
                Err(failure) => r matches Err(CompletionError::HttpError(t)) && t == failure,
                Ok(None) => r matches Err(CompletionError::ResponseError(t)) && t@ == UNRECOGNISED_RESPONSE@,
                Ok(Some(ApiResponse::Failure(e))) => r matches Err(CompletionError::ProviderError(t)) && t == e.message,
                Ok(Some(ApiResponse::Success(response))) => r matches Ok(done) && done.choice == choice_of(response)
                    && done.raw_response == response,
            },
    {
        match outcome {
            Err(failure) => Err(CompletionError::HttpError(failure)),
            Ok(None) => Err(CompletionError::ResponseError(UNRECOGNISED_RESPONSE.to_owned())),
            Ok(Some(ApiResponse::Failure(e))) => Err(CompletionError::ProviderError(e.message)),
            Ok(Some(ApiResponse::Success(response))) => Ok(completion::CompletionResponse::from(response)),
        }
    }
}

impl Client {
    /// A completion model of this client.
    pub fn completion_model(&self, model: &str) -> (r: CompletionModel)
        ensures
            r.client == *self,
            r.model@ == model@,
    {
        CompletionModel::new(self.duplicate(), model)
    }
}

} // verus!
