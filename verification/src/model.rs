//! The gateway's data model: the request and response shapes of the two
//! completion endpoints, the configuration snapshot, and the shape of every
//! response the gateway itself sends.

use vstd::prelude::*;

verus! {

/// serde_json's JSON value type, declared so that opaque `logprobs` payloads
/// can be carried through the gateway untouched. Nothing is assumed about a
/// value of it: the gateway never inspects one.
#[verifier::external_type_specification]
#[verifier::external_body]
pub struct ExJsonValue(serde_json::Value);

/// One chat message: a role and its text content.
#[derive(Debug, Clone, PartialEq, Eq)]
pub struct Message {
    pub role: String,
    pub content: String,
}

/// The body of an inbound `POST /v1/chat/completions` request.
#[derive(Debug, Clone, PartialEq, Eq)]
pub struct ChatCompletionRequest {
    pub model: String,
    pub messages: Vec<Message>,
}

/// One choice of a chat-completion reply.
#[derive(Debug, Clone, PartialEq, Eq)]
pub struct Choice {
    pub index: u32,
    pub message: Message,
    pub finish_reason: String,
}

/// The upstream reply to a chat-completion request, relayed to the caller.
#[derive(Debug, Clone, PartialEq, Eq)]
pub struct ChatCompletionResponse {
    pub id: String,
    pub object: String,
    pub created: u64,
    pub model: String,
    pub choices: Vec<Choice>,
}

/// The body of an inbound `POST /v1/completions` request.
///
/// The sampling temperature is only passed through, never read, so it is
/// carried as the raw bit pattern of the 32-bit float the caller sent.
#[derive(Debug, Clone, PartialEq, Eq)]
pub struct CompletionRequest {
    pub model: String,
    pub prompt: String,
    pub max_tokens: Option<u32>,
    pub temperature_bits: Option<u32>,
}

/// One choice of a text-completion reply. `logprobs` is an opaque JSON value
/// that the gateway relays without inspecting it.
#[derive(Debug, Clone, PartialEq)]
pub struct CompletionChoice {
    pub text: String,
    pub index: u32,
    pub logprobs: Option<serde_json::Value>,
    pub finish_reason: String,
}

/// The upstream reply to a text-completion request, relayed to the caller.
#[derive(Debug, Clone, PartialEq)]
pub struct CompletionResponse {
    pub id: String,
    pub object: String,
    pub created: u64,
    pub model: String,
    pub choices: Vec<CompletionChoice>,
}

/// Where the gateway listens.
#[derive(Debug, Clone, PartialEq, Eq)]
pub struct ServerSettings {
    pub host: String,
    pub port: u16,
}

/// How the upstream inference service is reached.
#[derive(Debug, Clone, PartialEq, Eq)]
pub struct AIServiceSettings {
    pub url: String,
    pub api_key: String,
}

/// The immutable configuration snapshot, loaded once at startup and shared
/// read-only by every request.
#[derive(Debug, Clone, PartialEq, Eq)]
pub struct Settings {
    pub server: ServerSettings,
    pub ai_service: AIServiceSettings,
}

/// The body of a response the gateway sends to its caller.
#[derive(Debug, Clone, PartialEq)]
pub enum ResponseBody {
    /// No body at all.
    Empty,
    /// A fixed diagnostic text.
    Text(String),
    /// A chat-completion reply, to be sent as JSON.
    ChatJson(ChatCompletionResponse),
    /// A text-completion reply, to be sent as JSON.
    CompletionJson(CompletionResponse),
}

/// A complete response of the gateway: a status code and a body. A JSON body
/// is sent with `Content-Type: application/json`; see [`GatewayResponse::is_json`].
#[derive(Debug, Clone, PartialEq)]
pub struct GatewayResponse {
    pub status: u16,
    pub body: ResponseBody,
}

impl GatewayResponse {
    /// Whether the response carries a JSON body and so must be sent with
    /// `Content-Type: application/json`.
    pub fn is_json(&self) -> (r: bool)
        ensures
            r == (self.body is ChatJson || self.body is CompletionJson),
    {
        match self.body {
            ResponseBody::ChatJson(_) => true,
            ResponseBody::CompletionJson(_) => true,
            _ => false,
        }
    }
}

} // verus!
