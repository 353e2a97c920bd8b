//! The values that pass through one exchange, each with its mathematical
//! view.

use vstd::prelude::*;

verus! {

/// Why an exchange ended without a generated text.
#[derive(Clone, Copy, Debug, PartialEq, Eq, Structural)]
pub enum ErrorKind {
    /// The caller's message is empty or white space only.
    EmptyInput,
    /// The call to the backend did not complete.
    BackendUnreachable,
    /// The backend answered, but not in the expected shape.
    BackendResponseInvalid,
}

/// What a client sends: one chat message.
#[derive(Debug, PartialEq, Eq)]
pub struct ChatRequest {
    pub message: String,
}

/// A `ChatRequest` as a mathematical value.
pub struct ChatRequestView {
    pub message: Seq<char>,
}

impl View for ChatRequest {
    type V = ChatRequestView;

    open spec fn view(&self) -> ChatRequestView {
        ChatRequestView { message: self.message@ }
    }
}

/// What a client gets back on success: the generated text.
#[derive(Debug, PartialEq, Eq)]
pub struct ChatResponse {
    pub response: String,
}

/// A `ChatResponse` as a mathematical value.
pub struct ChatResponseView {
    pub response: Seq<char>,
}

impl View for ChatResponse {
    type V = ChatResponseView;

    open spec fn view(&self) -> ChatResponseView {
        ChatResponseView { response: self.response@ }
    }
}

/// What is sent to the backend.
#[derive(Debug, PartialEq, Eq)]
pub struct InferenceRequest {
    pub model: String,
    pub prompt: String,
    pub stream: bool,
}

/// An `InferenceRequest` as a mathematical value.
pub struct InferenceRequestView {
    pub model: Seq<char>,
    pub prompt: Seq<char>,
    pub stream: bool,
}

impl View for InferenceRequest {
    type V = InferenceRequestView;

    open spec fn view(&self) -> InferenceRequestView {
        InferenceRequestView { model: self.model@, prompt: self.prompt@, stream: self.stream }
    }
}

/// What the backend answers: the generated text.
#[derive(Debug, PartialEq, Eq)]
pub struct InferenceResponse {
    pub response: String,
}

/// An `InferenceResponse` as a mathematical value.
pub struct InferenceResponseView {
    pub response: Seq<char>,
}

impl View for InferenceResponse {
    type V = InferenceResponseView;

    open spec fn view(&self) -> InferenceResponseView {
        InferenceResponseView { response: self.response@ }
    }
}

/// How one attempt to reach the backend ended.
#[derive(Debug, PartialEq, Eq)]
pub enum BackendOutcome {
    /// The request could not be delivered, or no answer arrived.
    Unreachable,
    /// An answer arrived whose body is not a JSON object with a text under
    /// `response`.
    Malformed,
    /// An answer arrived and held a generated text.
    Generated(InferenceResponse),
}

/// A `BackendOutcome` as a mathematical value.
pub enum BackendOutcomeView {
    Unreachable,
    Malformed,
    Generated(InferenceResponseView),
}

impl View for BackendOutcome {
    type V = BackendOutcomeView;

    open spec fn view(&self) -> BackendOutcomeView {
        match self {
            BackendOutcome::Unreachable => BackendOutcomeView::Unreachable,
            BackendOutcome::Malformed => BackendOutcomeView::Malformed,
            BackendOutcome::Generated(answer) => BackendOutcomeView::Generated(answer@),
        }
    }
}

/// The body of a reply to the client.
#[derive(Debug, PartialEq, Eq)]
pub enum ReplyBody {
    /// The generated text, to be sent as a JSON object.
    Chat(ChatResponse),
    /// A sentence that describes the failure, to be sent as a JSON string.
    Error(String),
}

/// A `ReplyBody` as a mathematical value.
pub enum ReplyBodyView {
    Chat(ChatResponseView),
    Error(Seq<char>),
}

impl View for ReplyBody {
    type V = ReplyBodyView;

    open spec fn view(&self) -> ReplyBodyView {
        match self {
            ReplyBody::Chat(response) => ReplyBodyView::Chat(response@),
            ReplyBody::Error(description) => ReplyBodyView::Error(description@),
        }
    }
}

/// The reply to the client: an HTTP status and a body.
#[derive(Debug, PartialEq, Eq)]
pub struct HttpReply {
    pub status: u16,
    pub body: ReplyBody,
}

/// An `HttpReply` as a mathematical value.
pub struct HttpReplyView {
    pub status: int,
    pub body: ReplyBodyView,
}

impl View for HttpReply {
    type V = HttpReplyView;

    open spec fn view(&self) -> HttpReplyView {
        HttpReplyView { status: self.status as int, body: self.body@ }
    }
}

/// A result with its success value seen as a mathematical value.
pub open spec fn result_view<T: View>(result: Result<T, ErrorKind>) -> Result<T::V, ErrorKind> {
    match result {
        Ok(value) => Ok(value@),
        Err(kind) => Err(kind),
    }
}

} // verus!
