//! The event model: a closed, tagged-union representation of one parsed
//! line of the subprocess's event stream, with an explicit fallback case
//! for variants not known to this system.
//!
//! Elapsed times are held in whole milliseconds and currency amounts in
//! ten-thousandths of a dollar, so every field is a plain value.

use vstd::prelude::*;

verus! {

/// The input of a tool invocation; fields other than the file path are
/// ignored.
pub struct ToolInput {
    pub file_path: Option<String>,
}

/// One content fragment of an assistant turn.
pub enum ContentBlock {
    /// Prose or markdown content to render.
    Text { text: String },
    /// A tool invocation.
    ToolUse { name: String, input: ToolInput },
    /// Forward-compatible catch-all; contributes nothing to rendered
    /// output.
    Unknown,
}

/// The content fragments produced by one assistant turn, in order.
pub struct AssistantMessage {
    pub content: Vec<ContentBlock>,
}

/// Aggregate token usage for the whole run.
pub struct Usage {
    pub input_tokens: u64,
    pub cache_creation_input_tokens: u64,
    pub cache_read_input_tokens: u64,
    pub output_tokens: u64,
}

/// Per-model token usage and cost. The cost is in ten-thousandths of a
/// dollar.
pub struct ModelUsage {
    pub input_tokens: u64,
    pub output_tokens: u64,
    pub cache_read_input_tokens: u64,
    pub cache_creation_input_tokens: u64,
    pub web_search_requests: u64,
    pub cost_usd: u64,
    pub context_window: u64,
    pub max_output_tokens: u64,
}

/// The payload of the terminal "result" event, success subtype. The result
/// event family is otherwise closed: an unknown subtype is a
/// deserialization error, not a variant of this type. Durations are in
/// whole milliseconds and the total cost in ten-thousandths of a dollar.
/// Per-model usage is kept in arrival order so rendering is deterministic.
pub struct SuccessPayload {
    pub is_error: bool,
    pub duration_ms: u64,
    pub api_duration_ms: u64,
    pub num_turns: u64,
    pub result: String,
    pub total_cost_usd: u64,
    pub usage: Usage,
    pub model_usage: Vec<(String, ModelUsage)>,
}

/// One parsed line of subprocess output, discriminated by its `type` tag.
/// A line whose tag is recognized as neither an assistant turn nor a
/// result is `Unknown` and renders nothing; a line that fails to parse at
/// all never reaches this type (it is skipped from rendering but still
/// logged verbatim).
pub enum Event {
    Assistant { message: AssistantMessage },
    Result { result: SuccessPayload },
    Unknown,
}

} // verus!
