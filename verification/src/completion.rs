//! Provider-independent completion types: chat messages, tool definitions,
//! the model's choice and the errors of a completion.

use vstd::prelude::*;

verus! {

/// One message of a chat history.
#[derive(Clone, Debug)]
pub struct Message {
    /// `"system"`, `"user"` or `"assistant"`.
    pub role: String,
    pub content: String,
}

/// A tool that the model may call.
#[derive(Debug)]
pub struct ToolDefinition {
    pub name: String,
    pub description: String,
    /// JSON schema of the tool's arguments.
    pub parameters: serde_json::Value,
}

/// What the model answered: a plain message, or a call of a named tool with
/// JSON arguments.
#[derive(Debug)]
pub enum ModelChoice {
    Message(String),
    ToolCall(String, serde_json::Value),
}

/// The model's choice together with the provider's raw response.
#[derive(Debug)]
pub struct CompletionResponse<T> {
    pub choice: ModelChoice,
    pub raw_response: T,
}

/// Why a completion failed.
#[derive(Debug)]
pub enum CompletionError {
    /// The HTTP exchange failed.
    HttpError(reqwest::Error),
    /// JSON could not be read or written.
    JsonError(serde_json::Error),
    /// The provider's answer did not have the expected shape.
    ResponseError(String),
    /// The provider reported an error.
    ProviderError(String),
}

} // verus!
