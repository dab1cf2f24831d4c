//! The records of the chat-completion wire format that are made of plain
//! values.

use vstd::prelude::*;

verus! {

/// Token counts of one completion.
#[derive(Debug, Clone, Copy)]
pub struct Usage {
    pub prompt_tokens: u32,
    pub completion_tokens: u32,
    pub total_tokens: u32,
    pub prompt_tokens_details: PromptTokensDetails,
}

/// How many of the prompt's tokens were served from a cache.
#[derive(Debug, Clone, Copy)]
pub struct PromptTokensDetails {
    pub cached_tokens: u32,
}

/// What a request may ask of a streamed reply.
#[derive(Debug, Clone, Copy)]
pub struct StreamOptions {
    pub include_usage: Option<bool>,
}

/// One message of a conversation.
#[derive(Debug)]
pub struct Message {
    pub role: String,
    pub content: String,
}

impl Clone for Message {
    fn clone(&self) -> (copy: Self)
        ensures
            copy.role@ == self.role@,
            copy.content@ == self.content@,
    {
        Message { role: self.role.clone(), content: self.content.clone() }
    }
}

/// One part of a message's content that is text.
#[derive(Debug)]
pub struct ContentItem {
    pub text: String,
}

/// The envelope of an error reply.
#[derive(Debug)]
pub struct OpenAIErrorResponse {
    pub error: OpenAIError,
}

/// An error as the wire format reports it.
#[derive(Debug)]
pub struct OpenAIError {
    pub message: String,
    /// The class of the error; on the wire the field is named `type`.
    pub kind: String,
    pub code: String,
    pub param: Option<String>,
}

} // verus!
