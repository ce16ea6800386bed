//! Requests to the language model.

use vstd::prelude::*;

verus! {

/// The model that requests are sent to.
pub const MODEL: &'static str = "gpt-4o";

/// A chat-completions request: the messages and the parameters. The
/// temperature is given by the bits of its 32-bit float.
#[derive(Debug)]
pub struct ChatRequest {
    pub model: String,
    /// The system message, where there is one
    pub system_prompt: Option<String>,
    /// The user message
    pub user_prompt: String,
    pub temperature_bits: u32,
    pub max_tokens: u32,
    /// Whether the answer is asked for as a JSON object
    pub json_object: bool,
}

/// What a `ChatRequest` holds.
pub struct ChatRequestView {
    pub model: Seq<char>,
    pub system_prompt: Option<Seq<char>>,
    pub user_prompt: Seq<char>,
    pub temperature_bits: u32,
    pub max_tokens: u32,
    pub json_object: bool,
}

impl DeepView for ChatRequest {
    type V = ChatRequestView;

    open spec fn deep_view(&self) -> ChatRequestView {
        ChatRequestView {
            model: self.model@,
            system_prompt: match self.system_prompt {
                Some(s) => Some(s@),
                None => None,
            },
            user_prompt: self.user_prompt@,
            temperature_bits: self.temperature_bits,
            max_tokens: self.max_tokens,
            json_object: self.json_object,
        }
    }
}

/// A request for free text with a system message.
pub open spec fn text_request(
    system_prompt: Seq<char>,
    user_prompt: Seq<char>,
    temperature_bits: u32,
    max_tokens: u32,
) -> ChatRequestView {
    ChatRequestView {
        model: MODEL@,
        system_prompt: Some(system_prompt),
        user_prompt,
        temperature_bits,
        max_tokens,
        json_object: false,
    }
}

impl ChatRequest {
    /// A request for free text with a system message.
    pub fn text(
        system_prompt: &str,
        user_prompt: String,
        temperature_bits: u32,
        max_tokens: u32,
    ) -> (request: Self)
        ensures
            request.deep_view() == text_request(
                system_prompt@,
                user_prompt@,
                temperature_bits,
                max_tokens,
            ),
    {
        ChatRequest {
            model: MODEL.to_owned(),
            system_prompt: Some(system_prompt.to_owned()),
            user_prompt,
            temperature_bits,
            max_tokens,
            json_object: false,
        }
    }
}

} // verus!
