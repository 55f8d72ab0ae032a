//! Messages, tool calls, usage accounting and failures of language-model
//! clients.

use vstd::prelude::*;
use crate::errors::{concat2, concat3};
use crate::text::{decimal, u64_to_string};

verus! {

/// Why a language-model call failed.
#[derive(Debug)]
pub enum LLMError {
    AuthError(String),
    /// The provider's rate limit was hit; it may say after how many
    /// seconds to retry.
    RateLimitError { message: String, retry_after: Option<u64> },
    InvalidRequest(String),
    ModelNotAvailable(String),
    TokenLimitExceeded { used: u32, limit: u32 },
    NetworkError(String),
    /// No answer within this many seconds.
    Timeout(u64),
    ParseError(String),
    ContentFiltered(String),
    ProviderError { provider: String, message: String },
    Other(String),
}

/// The message of a language-model failure.
pub open spec fn llm_error_text(e: LLMError) -> Seq<char> {
    match e {
        LLMError::AuthError(m) => "Authentication error: "@ + m@,
        LLMError::RateLimitError { message, .. } => "Rate limit exceeded: "@ + message@,
        LLMError::InvalidRequest(m) => "Invalid request: "@ + m@,
        LLMError::ModelNotAvailable(m) => "Model not available: "@ + m@,
        LLMError::TokenLimitExceeded { used, limit } => "Token limit exceeded: used "@ + decimal(used as nat)
            + ", limit "@ + decimal(limit as nat),
        LLMError::NetworkError(m) => "Network error: "@ + m@,
        LLMError::Timeout(s) => "Request timeout after "@ + decimal(s as nat) + " seconds"@,
        LLMError::ParseError(m) => "Failed to parse response: "@ + m@,
        LLMError::ContentFiltered(m) => "Content filtered: "@ + m@,
        LLMError::ProviderError { provider, message } => "Provider error: "@ + provider@ + " - "@ + message@,
        LLMError::Other(m) => "LLM error: "@ + m@,
    }
}

impl LLMError {
    /// The message of this failure.
    pub fn to_string(&self) -> (s: String)
        ensures
            s@ == llm_error_text(*self),
    {
        match self {
            LLMError::AuthError(m) => concat2("Authentication error: ", m.as_str()),
            LLMError::RateLimitError { message, .. } => concat2("Rate limit exceeded: ", message.as_str()),
            LLMError::InvalidRequest(m) => concat2("Invalid request: ", m.as_str()),
            LLMError::ModelNotAvailable(m) => concat2("Model not available: ", m.as_str()),
            LLMError::TokenLimitExceeded { used, limit } => {
                let u = u64_to_string(*used as u64);
                let l = u64_to_string(*limit as u64);
                let mut s = concat3("Token limit exceeded: used ", u.as_str(), ", limit ");
                s.append(l.as_str());
                s
            },
            LLMError::NetworkError(m) => concat2("Network error: ", m.as_str()),
            LLMError::Timeout(secs) => {
                let n = u64_to_string(*secs);
                concat3("Request timeout after ", n.as_str(), " seconds")
            },
            LLMError::ParseError(m) => concat2("Failed to parse response: ", m.as_str()),
            LLMError::ContentFiltered(m) => concat2("Content filtered: ", m.as_str()),
            LLMError::ProviderError { provider, message } => {
                let mut s = concat3("Provider error: ", provider.as_str(), " - ");
                s.append(message.as_str());
                s
            },
            LLMError::Other(m) => concat2("LLM error: ", m.as_str()),
        }
    }
}

/// One answer of a chat completion.
#[derive(Debug, Clone)]
pub struct ChatChoice {
    pub message: ChatMessage,
    pub index: u32,
    pub finish_reason: FinishReason,
    pub tool_calls: Option<Vec<ToolCall>>,
}

/// A message of a chat.
#[derive(Debug, Clone)]
pub struct ChatMessage {
    pub role: MessageRole,
    pub content: Option<String>,
    pub name: Option<String>,
    pub tool_call_id: Option<String>,
    pub tool_calls: Option<Vec<ToolCall>>,
}

/// Who wrote a chat message.
#[derive(Debug, Clone, Copy, PartialEq, Eq)]
pub enum MessageRole {
    System,
    User,
    Assistant,
    Tool,
    Function,
}

/// Whether and which tools the model may call.
#[derive(Debug, Clone)]
pub enum ToolChoice {
    /// The model calls no tool.
    NoTool,
    Auto,
    Required,
    Specific { tool_type: String, function: ToolChoiceFunction },
}

/// The function a specific tool choice names.
#[derive(Debug, Clone)]
pub struct ToolChoiceFunction {
    pub name: String,
}

/// A tool call the model asked for.
#[derive(Debug, Clone)]
pub struct ToolCall {
    pub id: String,
    pub tool_type: String,
    pub function: FunctionCall,
}

/// A function call with its arguments as JSON text.
#[derive(Debug, Clone)]
pub struct FunctionCall {
    pub name: String,
    pub arguments: String,
}

/// Response formats.
#[derive(Debug, Clone, Copy, PartialEq, Eq)]
pub enum ResponseFormatType {
    Text,
    JsonObject,
    JsonSchema,
}

/// Why the model stopped.
#[derive(Debug, Clone, Copy, PartialEq, Eq)]
pub enum FinishReason {
    Stop,
    Length,
    ToolCalls,
    ContentFilter,
    Null,
}

/// Tokens a call used.
#[derive(Debug, Clone, Copy)]
pub struct TokenUsage {
    pub prompt_tokens: u32,
    pub completion_tokens: u32,
    pub total_tokens: u32,
    pub cached_tokens: Option<u32>,
}

/// A request for embeddings.
#[derive(Debug, Clone)]
pub struct EmbeddingRequest {
    pub input: Vec<String>,
    pub model: String,
    pub encoding_format: Option<EncodingFormat>,
    pub user_id: Option<String>,
}

/// Tokens an embedding request used.
#[derive(Debug, Clone, Copy)]
pub struct EmbeddingUsage {
    pub prompt_tokens: u32,
    pub total_tokens: u32,
}

/// How embeddings are encoded.
#[derive(Debug, Clone, Copy, PartialEq, Eq)]
pub enum EncodingFormat {
    Float,
    Base64,
}

/// Kinds of models.
#[derive(Debug, Clone, Copy, PartialEq, Eq)]
pub enum ModelType {
    Chat,
    Completion,
    Embedding,
    Image,
    Audio,
    MultiModal,
}

/// A piece of a streamed completion.
#[derive(Debug, Clone)]
pub struct CompletionChunk {
    pub text: String,
    pub finish_reason: Option<FinishReason>,
    pub index: u32,
}

/// A piece of a streamed chat completion.
#[derive(Debug, Clone)]
pub struct ChatCompletionChunk {
    pub delta: ChatMessageDelta,
    pub finish_reason: Option<FinishReason>,
    pub index: u32,
}

/// What a streamed piece adds to a chat message.
#[derive(Debug, Clone)]
pub struct ChatMessageDelta {
    pub role: Option<MessageRole>,
    pub content: Option<String>,
    pub tool_calls: Option<Vec<ToolCallDelta>>,
}

/// What a streamed piece adds to a tool call.
#[derive(Debug, Clone)]
pub struct ToolCallDelta {
    pub index: usize,
    pub id: Option<String>,
    pub tool_type: Option<String>,
    pub function: Option<FunctionCallDelta>,
}

/// What a streamed piece adds to a function call.
#[derive(Debug, Clone)]
pub struct FunctionCallDelta {
    pub name: Option<String>,
    pub arguments: Option<String>,
}

} // verus!
