//! The vendor-independent chat-completion schema that callers speak.

use vstd::prelude::*;

verus! {

/// Who sent a message.
#[derive(Debug, Clone, Copy, PartialEq, Eq, Structural)]
pub enum Role {
    User,
    Assistant,
    System,
}

/// One block of a message.
#[derive(Debug, Clone, PartialEq)]
pub enum MessageContent {
    Text { text: String },
    ToolUse { id: String, name: String, input: serde_json::Value },
    ToolResult { tool_use_id: String, is_error: Option<bool> },
}

pub enum MessageContentView {
    Text { text: Seq<char> },
    ToolUse { id: Seq<char>, name: Seq<char>, input: serde_json::Value },
    ToolResult { tool_use_id: Seq<char>, is_error: Option<bool> },
}

impl View for MessageContent {
    type V = MessageContentView;

    open spec fn view(&self) -> MessageContentView {
        match self {
            MessageContent::Text { text } => MessageContentView::Text { text: text@ },
            MessageContent::ToolUse { id, name, input } => MessageContentView::ToolUse {
                id: id@,
                name: name@,
                input: *input,
            },
            MessageContent::ToolResult { tool_use_id, is_error } => MessageContentView::ToolResult {
                tool_use_id: tool_use_id@,
                is_error: *is_error,
            },
        }
    }
}

impl DeepView for MessageContent {
    type V = MessageContentView;

    open spec fn deep_view(&self) -> MessageContentView {
        self.view()
    }
}

/// One message of a conversation.
#[derive(Debug, Clone, PartialEq)]
pub struct Message {
    pub role: Role,
    pub content: Vec<MessageContent>,
}

pub struct MessageView {
    pub role: Role,
    pub content: Seq<MessageContentView>,
}

impl View for Message {
    type V = MessageView;

    open spec fn view(&self) -> MessageView {
        MessageView { role: self.role, content: self.content.deep_view() }
    }
}

impl DeepView for Message {
    type V = MessageView;

    open spec fn deep_view(&self) -> MessageView {
        self.view()
    }
}

/// A request for one completion.
#[derive(Debug, Clone, PartialEq)]
pub struct CompletionRequest {
    pub model: String,
    pub messages: Vec<Message>,
    pub max_tokens: u32,
    pub system: Option<String>,
}

pub struct CompletionRequestView {
    pub model: Seq<char>,
    pub messages: Seq<MessageView>,
    pub max_tokens: u32,
    pub system: Option<Seq<char>>,
}

impl View for CompletionRequest {
    type V = CompletionRequestView;

    open spec fn view(&self) -> CompletionRequestView {
        CompletionRequestView {
            model: self.model@,
            messages: self.messages.deep_view(),
            max_tokens: self.max_tokens,
            system: self.system.deep_view(),
        }
    }
}

/// Token counts of one exchange.
#[derive(Debug, Clone, Copy, PartialEq, Eq, Structural)]
pub struct Usage {
    pub input_tokens: u32,
    pub output_tokens: u32,
}

/// Why generation stopped.
#[derive(Debug, Clone, PartialEq, Eq)]
pub enum StopReason {
    EndTurn,
    MaxTokens,
    StopSequence,
    ToolUse,
    Other(String),
}

pub enum StopReasonView {
    EndTurn,
    MaxTokens,
    StopSequence,
    ToolUse,
    Other(Seq<char>),
}

impl View for StopReason {
    type V = StopReasonView;

    open spec fn view(&self) -> StopReasonView {
        match self {
            StopReason::EndTurn => StopReasonView::EndTurn,
            StopReason::MaxTokens => StopReasonView::MaxTokens,
            StopReason::StopSequence => StopReasonView::StopSequence,
            StopReason::ToolUse => StopReasonView::ToolUse,
            StopReason::Other(tag) => StopReasonView::Other(tag@),
        }
    }
}

/// The answer to a completion request.
#[derive(Debug, Clone, PartialEq)]
pub struct CompletionResponse {
    pub content: Vec<MessageContent>,
    pub id: String,
    pub model: String,
    pub role: Role,
    pub stop_reason: StopReason,
    pub stop_sequence: Option<String>,
    pub message_type: String,
    pub usage: Usage,
}

pub struct CompletionResponseView {
    pub content: Seq<MessageContentView>,
    pub id: Seq<char>,
    pub model: Seq<char>,
    pub role: Role,
    pub stop_reason: StopReasonView,
    pub stop_sequence: Option<Seq<char>>,
    pub message_type: Seq<char>,
    pub usage: Usage,
}

impl View for CompletionResponse {
    type V = CompletionResponseView;

    open spec fn view(&self) -> CompletionResponseView {
        CompletionResponseView {
            content: self.content.deep_view(),
            id: self.id@,
            model: self.model@,
            role: self.role,
            stop_reason: self.stop_reason@,
            stop_sequence: self.stop_sequence.deep_view(),
            message_type: self.message_type@,
            usage: self.usage,
        }
    }
}

/// What a caller learns about one model.
#[derive(Debug, Clone, PartialEq, Eq)]
pub struct ModelInfo {
    pub id: String,
    pub display_name: String,
    pub max_tokens: u32,
    pub provider: String,
}

pub struct ModelInfoView {
    pub id: Seq<char>,
    pub display_name: Seq<char>,
    pub max_tokens: u32,
    pub provider: Seq<char>,
}

impl View for ModelInfo {
    type V = ModelInfoView;

    open spec fn view(&self) -> ModelInfoView {
        ModelInfoView {
            id: self.id@,
            display_name: self.display_name@,
            max_tokens: self.max_tokens,
            provider: self.provider@,
        }
    }
}

impl DeepView for ModelInfo {
    type V = ModelInfoView;

    open spec fn deep_view(&self) -> ModelInfoView {
        self.view()
    }
}

/// An operation that a caller asks of the proxy.
#[derive(Debug, Clone, PartialEq)]
pub enum ProxyRequest {
    ListModels,
    GenerateCompletion { request: CompletionRequest },
}

pub enum ProxyRequestView {
    ListModels,
    GenerateCompletion { request: CompletionRequestView },
}

impl View for ProxyRequest {
    type V = ProxyRequestView;

    open spec fn view(&self) -> ProxyRequestView {
        match self {
            ProxyRequest::ListModels => ProxyRequestView::ListModels,
            ProxyRequest::GenerateCompletion { request } => ProxyRequestView::GenerateCompletion {
                request: request@,
            },
        }
    }
}

/// What the proxy answers.
#[derive(Debug, Clone, PartialEq)]
pub enum ProxyResponse {
    ListModels { models: Vec<ModelInfo> },
    Completion { completion: CompletionResponse },
    Error { error: String },
}

pub enum ProxyResponseView {
    ListModels { models: Seq<ModelInfoView> },
    Completion { completion: CompletionResponseView },
    Error { error: Seq<char> },
}

impl View for ProxyResponse {
    type V = ProxyResponseView;

    open spec fn view(&self) -> ProxyResponseView {
        match self {
            ProxyResponse::ListModels { models } => ProxyResponseView::ListModels {
                models: models.deep_view(),
            },
            ProxyResponse::Completion { completion } => ProxyResponseView::Completion {
                completion: completion@,
            },
            ProxyResponse::Error { error } => ProxyResponseView::Error { error: error@ },
        }
    }
}

} // verus!
