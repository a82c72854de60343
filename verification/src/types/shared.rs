//! Types shared across multiple resources.
use vstd::prelude::*;

use crate::json::JsonValue;
use crate::text::push_str;
use crate::types::text::IntoText;

verus! {

/// Token accounting for a completion.
#[derive(Debug, Clone, PartialEq, Eq)]
pub struct Usage {
    /// Tokens consumed by the prompt.
    pub prompt_tokens: u32,
    /// Tokens produced in the completion.
    pub completion_tokens: u32,
    /// Sum of prompt and completion tokens.
    pub total_tokens: u32,
}

/// `function`
pub open spec fn function_kind() -> Seq<char> {
    seq!['f', 'u', 'n', 'c', 't', 'i', 'o', 'n']
}

/// The string `function`.
fn function_kind_string() -> (r: String)
    ensures
        r@ == function_kind(),
{
    let mut s = String::new();
    push_str(&mut s, "function");
    proof {
        reveal_strlit("function");
    }
    assert(s@ =~= function_kind());
    s
}

/// A function-calling tool definition, OpenAI-compatible.
#[derive(Debug, Clone, PartialEq)]
pub struct Tool {
    /// Discriminator; always `"function"`.
    pub kind: String,
    /// The function the model may call.
    pub function: FunctionDef,
}

impl Tool {
    /// Builds a `function`-typed tool from a name and JSON-Schema parameters.
    pub fn function<N: IntoText, D: IntoText>(name: N, description: D, parameters: JsonValue) -> (r:
        Self)
        ensures
            r.kind@ == function_kind(),
            r.function.name@ == name.text_view(),
            r.function.description matches Some(d) && d@ == description.text_view(),
            r.function.parameters == Some(parameters),
    {
        Tool {
            kind: function_kind_string(),
            function: FunctionDef {
                name: name.into_text(),
                description: Some(description.into_text()),
                parameters: Some(parameters),
            },
        }
    }
}

/// The function half of a [`Tool`].
#[derive(Debug, Clone, PartialEq)]
pub struct FunctionDef {
    /// Function name the model uses to call it.
    pub name: String,
    /// Natural-language description of what the function does.
    pub description: Option<String>,
    /// JSON Schema describing the function arguments.
    pub parameters: Option<JsonValue>,
}

/// A model's request to invoke a tool.
#[derive(Debug, Clone, PartialEq)]
pub struct ToolCall {
    /// Identifier echoed back in the corresponding `tool` message.
    pub id: String,
    /// Discriminator; always `"function"`.
    pub kind: String,
    /// The function invocation.
    pub function: FunctionCall,
}

/// The function invocation carried by a [`ToolCall`].
#[derive(Debug, Clone, PartialEq)]
pub struct FunctionCall {
    /// Name of the function to call.
    pub name: String,
    /// JSON-encoded arguments string (not a parsed object).
    pub arguments: String,
}

/// Controls whether and how the model may call tools.
#[derive(Debug, Clone, PartialEq)]
pub enum ToolChoice {
    /// One of `"auto"`, `"none"`, or `"required"`.
    Mode(String),
    /// Force a specific named function.
    Named(NamedToolChoice),
}

/// `auto`
pub open spec fn mode_auto() -> Seq<char> {
    seq!['a', 'u', 't', 'o']
}

/// `none`
pub open spec fn mode_none() -> Seq<char> {
    seq!['n', 'o', 'n', 'e']
}

/// `required`
pub open spec fn mode_required() -> Seq<char> {
    seq!['r', 'e', 'q', 'u', 'i', 'r', 'e', 'd']
}

impl ToolChoice {
    /// Let the model decide whether to call a tool.
    pub fn auto() -> (r: Self)
        ensures
            r matches ToolChoice::Mode(m) && m@ == mode_auto(),
    {
        let mut s = String::new();
        push_str(&mut s, "auto");
        proof {
            reveal_strlit("auto");
        }
        assert(s@ =~= mode_auto());
        ToolChoice::Mode(s)
    }

    /// Forbid tool calls for this request.
    pub fn none() -> (r: Self)
        ensures
            r matches ToolChoice::Mode(m) && m@ == mode_none(),
    {
        let mut s = String::new();
        push_str(&mut s, "none");
        proof {
            reveal_strlit("none");
        }
        assert(s@ =~= mode_none());
        ToolChoice::Mode(s)
    }

    /// Require the model to call at least one tool.
    pub fn required() -> (r: Self)
        ensures
            r matches ToolChoice::Mode(m) && m@ == mode_required(),
    {
        let mut s = String::new();
        push_str(&mut s, "required");
        proof {
            reveal_strlit("required");
        }
        assert(s@ =~= mode_required());
        ToolChoice::Mode(s)
    }

    /// Force the model to call the named function.
    pub fn function<N: IntoText>(name: N) -> (r: Self)
        ensures
            r matches ToolChoice::Named(n) && n.kind@ == function_kind() && n.function.name@
                == name.text_view(),
    {
        ToolChoice::Named(
            NamedToolChoice {
                kind: function_kind_string(),
                function: NamedFunction { name: name.into_text() },
            },
        )
    }
}

/// A [`ToolChoice`] that pins a specific function.
#[derive(Debug, Clone, PartialEq)]
pub struct NamedToolChoice {
    /// Discriminator; always `"function"`.
    pub kind: String,
    /// The function to force.
    pub function: NamedFunction,
}

/// The name wrapper inside a [`NamedToolChoice`].
#[derive(Debug, Clone, PartialEq)]
pub struct NamedFunction {
    /// Function name to force.
    pub name: String,
}

} // verus!
