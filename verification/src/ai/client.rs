//! Messages exchanged with a local Ollama instance: chat messages and the
//! replies of its generate and chat endpoints.

use vstd::prelude::*;

use crate::text::owned;

verus! {

/// Default Ollama API endpoint.
pub const DEFAULT_OLLAMA_URL: &'static str = "http://localhost:11434";

/// A message in the chat conversation.
#[derive(Debug, Clone)]
pub struct ChatMessage {
    pub role: String,
    pub content: String,
}

impl ChatMessage {
    /// A message from the user.
    pub fn user(content: &str) -> (m: Self)
        ensures
            m.role@ == "user"@,
            m.content@ == content@,
    {
        Self { role: owned("user"), content: owned(content) }
    }

    /// A system message, setting context for the model.
    pub fn system(content: &str) -> (m: Self)
        ensures
            m.role@ == "system"@,
            m.content@ == content@,
    {
        Self { role: owned("system"), content: owned(content) }
    }
}

/// Response from Ollama's generate endpoint.
#[derive(Debug, Clone)]
pub struct OllamaResponse {
    pub model: String,
    pub response: String,
    pub done: bool,
    pub total_duration: Option<u64>,
    pub load_duration: Option<u64>,
    pub prompt_eval_count: Option<u32>,
    pub eval_count: Option<u32>,
}

/// Response from Ollama's chat endpoint.
#[derive(Debug, Clone)]
pub struct OllamaChatResponse {
    pub model: String,
    pub message: ChatMessage,
    pub done: bool,
    pub total_duration: Option<u64>,
    pub load_duration: Option<u64>,
    pub prompt_eval_count: Option<u32>,
    pub eval_count: Option<u32>,
}

} // verus!
