//! Chat completion message and response types.
use vstd::prelude::*;

use crate::text::push_str;
use crate::types::shared::{ToolCall, Usage};
use crate::types::text::IntoText;

verus! {

/// Role of a chat message author.
#[derive(Debug, Clone, Copy, PartialEq, Eq, Structural)]
pub enum Role {
    /// System / developer instructions.
    System,
    /// End-user input.
    User,
    /// Model output.
    Assistant,
    /// Result of a tool call, paired with a `tool_call_id`.
    Tool,
}

/// Reasoning budget for reasoning-capable models.
#[derive(Debug, Clone, Copy, PartialEq, Eq, Structural)]
pub enum ReasoningEffort {
    /// Minimal reasoning.
    Low,
    /// Balanced reasoning.
    Medium,
    /// Maximum reasoning.
    High,
}

/// The content of a [`ChatMessage`]: either plain text or a list of parts.
#[derive(Debug, Clone, PartialEq)]
pub enum MessageContent {
    /// A single text string.
    Text(String),
    /// An ordered list of multimodal parts.
    Parts(Vec<ContentPart>),
}

/// Values a message can be built from: text (a string slice or an owned
/// string), a list of parts, or a [`MessageContent`].
pub trait IntoMessageContent: Sized {
    /// Whether `c` is what this value converts to.
    spec fn converts_to(&self, c: MessageContent) -> bool;

    /// Converts to message content.
    fn into_content(self) -> (r: MessageContent)
        ensures
            self.converts_to(r),
    ;
}

impl<'a> IntoMessageContent for &'a str {
    open spec fn converts_to(&self, c: MessageContent) -> bool {
        c matches MessageContent::Text(t) && t@ == (*self)@
    }

    fn into_content(self) -> (r: MessageContent) {
        MessageContent::Text(self.into_text())
    }
}

impl IntoMessageContent for String {
    open spec fn converts_to(&self, c: MessageContent) -> bool {
        c matches MessageContent::Text(t) && t@ == self@
    }

    fn into_content(self) -> (r: MessageContent) {
        MessageContent::Text(self)
    }
}

impl IntoMessageContent for Vec<ContentPart> {
    open spec fn converts_to(&self, c: MessageContent) -> bool {
        c == MessageContent::Parts(*self)
    }

    fn into_content(self) -> (r: MessageContent) {
        MessageContent::Parts(self)
    }
}

impl IntoMessageContent for MessageContent {
    open spec fn converts_to(&self, c: MessageContent) -> bool {
        c == *self
    }

    fn into_content(self) -> (r: MessageContent) {
        self
    }
}

/// One part of a multimodal message.
#[derive(Debug, Clone, PartialEq)]
pub enum ContentPart {
    /// A run of text.
    Text {
        /// The text content.
        text: String,
    },
    /// An image, by `data:` URI or HTTPS URL.
    ImageUrl {
        /// The image reference and optional detail hint.
        image_url: ImageUrl,
    },
}

impl ContentPart {
    /// A text part.
    pub fn text<T: IntoText>(text: T) -> (r: Self)
        ensures
            r matches ContentPart::Text { text: t } && t@ == text.text_view(),
    {
        ContentPart::Text { text: text.into_text() }
    }

    /// An image part from a `data:` URI or HTTPS URL.
    pub fn image_url<T: IntoText>(url: T) -> (r: Self)
        ensures
            r matches ContentPart::ImageUrl { image_url: i } && i.url@ == url.text_view()
                && i.detail is None,
    {
        ContentPart::ImageUrl { image_url: ImageUrl { url: url.into_text(), detail: None } }
    }
}

/// An image reference within a [`ContentPart::ImageUrl`].
#[derive(Debug, Clone, PartialEq)]
pub struct ImageUrl {
    /// A `data:` URI or an HTTPS URL (e.g. from `/v1/uploads/images`).
    pub url: String,
    /// Optional detail hint: `"low"`, `"high"`, or `"auto"`.
    pub detail: Option<String>,
}

/// A single message in a chat conversation.
#[derive(Debug, Clone, PartialEq)]
pub struct ChatMessage {
    /// Author role.
    pub role: Role,
    /// Message content; omitted on assistant messages that only carry tool
    /// calls.
    pub content: Option<MessageContent>,
    /// Tool calls requested by an assistant message.
    pub tool_calls: Option<Vec<ToolCall>>,
    /// Identifier of the tool call this message responds to; required when
    /// `role` is [`Role::Tool`].
    pub tool_call_id: Option<String>,
}

impl ChatMessage {
    /// A `system` message.
    pub fn system<C: IntoMessageContent>(content: C) -> (r: Self)
        ensures
            message_of(r, Role::System, content),
            r.role == Role::System,
            r.content matches Some(c) && content.converts_to(c),
            r.tool_calls is None,
            r.tool_call_id is None,
    {
        ChatMessage {
            role: Role::System,
            content: Some(content.into_content()),
            tool_calls: None,
            tool_call_id: None,
        }
    }

    /// A `user` message.
    pub fn user<C: IntoMessageContent>(content: C) -> (r: Self)
        ensures
            message_of(r, Role::User, content),
            r.role == Role::User,
            r.content matches Some(c) && content.converts_to(c),
            r.tool_calls is None,
            r.tool_call_id is None,
    {
        ChatMessage {
            role: Role::User,
            content: Some(content.into_content()),
            tool_calls: None,
            tool_call_id: None,
        }
    }

    /// An `assistant` message.
    pub fn assistant<C: IntoMessageContent>(content: C) -> (r: Self)
        ensures
            message_of(r, Role::Assistant, content),
            r.role == Role::Assistant,
            r.content matches Some(c) && content.converts_to(c),
            r.tool_calls is None,
            r.tool_call_id is None,
    {
        ChatMessage {
            role: Role::Assistant,
            content: Some(content.into_content()),
            tool_calls: None,
            tool_call_id: None,
        }
    }

    /// A `tool` result message, paired with the originating call id.
    pub fn tool<T: IntoText, C: IntoMessageContent>(tool_call_id: T, content: C) -> (r: Self)
        ensures
            r.role == Role::Tool,
            r.content matches Some(c) && content.converts_to(c),
            r.tool_calls is None,
            r.tool_call_id matches Some(id) && id@ == tool_call_id.text_view(),
    {
        ChatMessage {
            role: Role::Tool,
            content: Some(content.into_content()),
            tool_calls: None,
            tool_call_id: Some(tool_call_id.into_text()),
        }
    }
}

/// Whether `m` is the message with role `role` and content converted from
/// `content`, carrying no tool calls and no tool call id.
pub open spec fn message_of<C: IntoMessageContent>(m: ChatMessage, role: Role, content: C) -> bool {
    &&& m.role == role
    &&& m.content matches Some(c) && content.converts_to(c)
    &&& m.tool_calls is None
    &&& m.tool_call_id is None
}

/// Law: a system message differs from the user message of the same content
/// only in its role: replacing the role of the one by the other's gives the
/// other.
pub proof fn law_system_is_user_but_role<C: IntoMessageContent>(m: ChatMessage, content: C)
    ensures
        message_of(m, Role::System, content) ==> message_of(
            ChatMessage { role: Role::User, ..m },
            Role::User,
            content,
        ),
        message_of(m, Role::User, content) ==> message_of(
            ChatMessage { role: Role::System, ..m },
            Role::System,
            content,
        ),
{
}

/// Law: an assistant message differs from the user message of the same
/// content only in its role.
pub proof fn law_assistant_is_user_but_role<C: IntoMessageContent>(m: ChatMessage, content: C)
    ensures
        message_of(m, Role::Assistant, content) ==> message_of(
            ChatMessage { role: Role::User, ..m },
            Role::User,
            content,
        ),
        message_of(m, Role::User, content) ==> message_of(
            ChatMessage { role: Role::Assistant, ..m },
            Role::Assistant,
            content,
        ),
{
}

/// A stop condition: one sequence or several.
#[derive(Debug, Clone, PartialEq)]
pub enum StopSequence {
    /// A single stop string.
    One(String),
    /// Up to a handful of stop strings.
    Many(Vec<String>),
}

/// Error returned when a request builder is missing a required field.
#[derive(Debug, Clone, Copy, PartialEq, Eq, Structural)]
#[non_exhaustive]
pub enum BuildError {
    /// `model` was not set on the builder.
    MissingModel,
    /// `prompt` was not set on the builder.
    MissingPrompt,
    /// `input` was not set on the builder.
    MissingInput,
}

/// The message of a [`BuildError`].
pub open spec fn build_error_message(e: BuildError) -> Seq<char> {
    match e {
        BuildError::MissingModel => seq![
            '`',
            'm',
            'o',
            'd',
            'e',
            'l',
            '`',
            ' ',
            'i',
            's',
            ' ',
            'r',
            'e',
            'q',
            'u',
            'i',
            'r',
            'e',
            'd',
        ],
        BuildError::MissingPrompt => seq![
            '`',
            'p',
            'r',
            'o',
            'm',
            'p',
            't',
            '`',
            ' ',
            'i',
            's',
            ' ',
            'r',
            'e',
            'q',
            'u',
            'i',
            'r',
            'e',
            'd',
        ],
        BuildError::MissingInput => seq![
            '`',
            'i',
            'n',
            'p',
            'u',
            't',
            '`',
            ' ',
            'i',
            's',
            ' ',
            'r',
            'e',
            'q',
            'u',
            'i',
            'r',
            'e',
            'd',
        ],
    }
}

impl BuildError {
    /// The human-readable message, e.g. ``"`model` is required"``.
    pub fn to_display_string(&self) -> (r: String)
        ensures
            r@ == build_error_message(*self),
    {
        let mut s = String::new();
        match self {
            BuildError::MissingModel => {
                push_str(&mut s, "`model` is required");
                proof {
                    reveal_strlit("`model` is required");
                }
            },
            BuildError::MissingPrompt => {
                push_str(&mut s, "`prompt` is required");
                proof {
                    reveal_strlit("`prompt` is required");
                }
            },
            BuildError::MissingInput => {
                push_str(&mut s, "`input` is required");
                proof {
                    reveal_strlit("`input` is required");
                }
            },
        }
        assert(s@ =~= build_error_message(*self));
        s
    }
}

/// The model of a chat completion request, which the request builder
/// requires: the model that was set, or [`BuildError::MissingModel`].
pub fn require_model(model: Option<String>) -> (r: Result<String, BuildError>)
    ensures
        match model {
            Some(m) => r matches Ok(x) && x@ == m@,
            None => r == Err::<String, BuildError>(BuildError::MissingModel),
        },
{
    match model {
        Some(m) => Ok(m),
        None => Err(BuildError::MissingModel),
    }
}

/// Reason a completion stopped generating.
#[derive(Debug, Clone, Copy, PartialEq, Eq, Structural)]
pub enum FinishReason {
    /// Natural stop or a stop sequence was hit.
    Stop,
    /// The token limit was reached.
    Length,
    /// The model emitted tool calls.
    ToolCalls,
    /// Output was filtered.
    ContentFilter,
}

/// A non-streamed chat completion.
#[derive(Debug, Clone, PartialEq)]
pub struct ChatCompletionResponse {
    /// Unique completion identifier.
    pub id: String,
    /// Object type; always `"chat.completion"`.
    pub object: String,
    /// Unix epoch seconds at creation.
    pub created: u64,
    /// Model that produced the completion.
    pub model: String,
    /// One entry per generated choice.
    pub choices: Vec<Choice>,
    /// Token accounting.
    pub usage: Usage,
}

/// One choice within a [`ChatCompletionResponse`].
#[derive(Debug, Clone, PartialEq)]
pub struct Choice {
    /// Position of this choice in the list.
    pub index: u32,
    /// The generated message.
    pub message: ResponseMessage,
    /// Why generation stopped.
    pub finish_reason: FinishReason,
}

/// The assistant message inside a [`Choice`].
#[derive(Debug, Clone, PartialEq)]
pub struct ResponseMessage {
    /// Author role; always [`Role::Assistant`].
    pub role: Role,
    /// Generated text.
    pub content: String,
    /// Reasoning trace, for reasoning-capable models.
    pub reasoning_content: Option<String>,
    /// Tool calls requested by the model.
    pub tool_calls: Option<Vec<ToolCall>>,
}

/// One event in a streamed completion.
#[derive(Debug, Clone, PartialEq)]
pub struct ChatCompletionChunk {
    /// Completion identifier, stable across the stream.
    pub id: String,
    /// Object type; always `"chat.completion.chunk"`.
    pub object: String,
    /// Unix epoch seconds at creation.
    pub created: u64,
    /// Model producing the stream.
    pub model: String,
    /// Incremental choices.
    pub choices: Vec<ChunkChoice>,
    /// Cumulative token accounting, present on the final chunk(s).
    pub usage: Option<Usage>,
}

/// One choice within a [`ChatCompletionChunk`].
#[derive(Debug, Clone, PartialEq)]
pub struct ChunkChoice {
    /// Position of this choice in the list.
    pub index: u32,
    /// The incremental delta for this choice.
    pub delta: Delta,
    /// Why generation stopped, on the final chunk for this choice.
    pub finish_reason: Option<FinishReason>,
}

/// The incremental payload of a [`ChunkChoice`].
#[derive(Debug, Clone, PartialEq)]
pub struct Delta {
    /// Author role, present on the first delta.
    pub role: Option<Role>,
    /// Text fragment.
    pub content: Option<String>,
    /// Reasoning trace fragment.
    pub reasoning_content: Option<String>,
    /// Incremental tool-call fragments.
    pub tool_calls: Option<Vec<ToolCallDelta>>,
}

/// An incremental tool-call fragment within a [`Delta`].
#[derive(Debug, Clone, PartialEq)]
pub struct ToolCallDelta {
    /// Index of the tool call being assembled.
    pub index: u32,
    /// Tool-call id, present on the first fragment.
    pub id: Option<String>,
    /// Discriminator, present on the first fragment.
    pub kind: Option<String>,
    /// Function name/argument fragments.
    pub function: Option<FunctionCallDelta>,
}

/// Incremental function name/arguments within a [`ToolCallDelta`].
#[derive(Debug, Clone, PartialEq)]
pub struct FunctionCallDelta {
    /// Function name, present on the first fragment.
    pub name: Option<String>,
    /// Argument string fragment to be concatenated.
    pub arguments: Option<String>,
}

} // verus!
