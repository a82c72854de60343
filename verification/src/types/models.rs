//! Model catalog types.
use vstd::prelude::*;

verus! {

/// Capability flags for a model.
#[derive(Debug, Clone, PartialEq, Eq)]
pub struct ModelCapabilities {
    /// Whether the model supports SSE streaming.
    pub streaming: bool,
    /// Whether the model supports function/tool calling.
    pub tool_calls: bool,
    /// Whether the model accepts image inputs.
    pub vision: bool,
    /// Whether the model supports JSON-mode responses.
    pub json_mode: bool,
    /// Whether the model exposes a reasoning trace, when known.
    pub reasoning: Option<bool>,
}

/// Input/output modality lists for a model.
#[derive(Debug, Clone, PartialEq, Eq)]
pub struct Modalities {
    /// Accepted input modalities (e.g. `"text"`, `"image"`).
    pub input: Option<Vec<String>>,
    /// Produced output modalities.
    pub output: Option<Vec<String>>,
}

} // verus!
