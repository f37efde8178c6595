//! Chat messages and provider replies.

use vstd::prelude::*;

verus! {

/// One chat message: a role tag ("system", "user" or "assistant") and its
/// text. Immutable once created.
#[derive(Debug)]
pub struct Message {
    pub role: String,
    pub content: String,
}

impl Clone for Message {
    fn clone(&self) -> (r: Self)
        ensures
            r == *self,
    {
        Message { role: self.role.clone(), content: self.content.clone() }
    }
}

/// One completed provider exchange: the reply text, the model that
/// produced it, and the token count when the provider reported one.
#[derive(Debug)]
pub struct LLMResponse {
    pub content: String,
    pub model: String,
    pub tokens_used: Option<u32>,
}

impl Clone for LLMResponse {
    fn clone(&self) -> (r: Self)
        ensures
            r == *self,
    {
        LLMResponse {
            content: self.content.clone(),
            model: self.model.clone(),
            tokens_used: self.tokens_used,
        }
    }
}

} // verus!
