//! The parts of a response in the provider's newer shape.

use vstd::prelude::*;
use crate::json::Json;
use crate::openai_network_types::OpenAIMessageType;
use crate::types::Decimal;

verus! {

/// One part of the content of an output message.
#[derive(Debug, Clone, PartialEq, Eq)]
pub struct Content {
    pub kind: OpenAIMessageType,
    pub text: Option<String>,
}

/// One message of the output.
#[derive(Debug, Clone, PartialEq, Eq)]
pub struct Message {
    pub kind: String,
    pub id: String,
    pub status: String,
    pub role: String,
    pub content: Vec<Content>,
}

/// The format of the text of a response.
#[derive(Debug, Clone, PartialEq, Eq)]
pub struct Format {
    pub kind: String,
}

/// How the text of a response is given.
#[derive(Debug, Clone, PartialEq, Eq)]
pub struct Text {
    pub format: Format,
}

/// Of the tokens that were read, how many came from a cache.
#[derive(Debug, Clone, Copy, PartialEq, Eq, Structural)]
pub struct InputTokensDetails {
    pub cached_tokens: u64,
}

/// Of the tokens that were written, how many went into reasoning.
#[derive(Debug, Clone, Copy, PartialEq, Eq, Structural)]
pub struct OutputTokensDetails {
    pub reasoning_tokens: u64,
}

/// The tokens that an exchange has used.
#[derive(Debug, Clone, Copy, PartialEq, Eq, Structural)]
pub struct Usage {
    pub input_tokens: u64,
    pub input_tokens_details: InputTokensDetails,
    pub output_tokens: u64,
    pub output_tokens_details: OutputTokensDetails,
    pub total_tokens: u64,
}

/// How the model reasoned.
#[derive(Debug, Clone, PartialEq, Eq)]
pub struct Reasoning {
    pub effort: Option<Json>,
    pub generate_summary: Option<Json>,
}

/// A response in the provider's newer shape.
#[derive(Debug, Clone, PartialEq, Eq)]
pub struct ResponsesResponse {
    pub id: String,
    pub created_at: i64,
    pub status: Option<String>,
    pub error: Option<Json>,
    pub incomplete_details: Option<Json>,
    pub instructions: Option<Json>,
    pub max_output_tokens: Option<Json>,
    pub model: String,
    pub output: Vec<Message>,
    pub parallel_tool_calls: Option<bool>,
    pub previous_response_id: Option<String>,
    pub reasoning: Option<Reasoning>,
    pub store: Option<bool>,
    pub temperature: Decimal,
    pub text: Option<Text>,
    pub tool_choice: String,
    pub tools: Option<Vec<Json>>,
    pub top_p: Decimal,
    pub truncation: String,
    pub usage: Option<Usage>,
    pub user: Option<Json>,
}

impl Default for ResponsesResponse {
    fn default() -> (r: Self)
        ensures
            r.id@.len() == 0,
            r.created_at == 0,
            r.status.is_none(),
            r.error.is_none(),
            r.incomplete_details.is_none(),
            r.instructions.is_none(),
            r.max_output_tokens.is_none(),
            r.model@.len() == 0,
            r.output@.len() == 0,
            r.parallel_tool_calls.is_none(),
            r.previous_response_id.is_none(),
            r.reasoning.is_none(),
            r.store.is_none(),
            r.temperature.bits == 0,
            r.text.is_none(),
            r.tool_choice@.len() == 0,
            r.tools.is_none(),
            r.top_p.bits == 0,
            r.truncation@.len() == 0,
            r.usage.is_none(),
            r.user.is_none(),
    {
        ResponsesResponse {
            id: String::new(),
            created_at: 0,
            status: None,
            error: None,
            incomplete_details: None,
            instructions: None,
            max_output_tokens: None,
            model: String::new(),
            output: Vec::new(),
            parallel_tool_calls: None,
            previous_response_id: None,
            reasoning: None,
            store: None,
            temperature: Decimal { bits: 0 },
            text: None,
            tool_choice: String::new(),
            tools: None,
            top_p: Decimal { bits: 0 },
            truncation: String::new(),
            usage: None,
            user: None,
        }
    }
}

} // verus!
