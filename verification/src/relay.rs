//! One exchange with a client: check the message, forward it, and turn
//! whatever the backend did into a reply.
//!
//! An exchange keeps no state. It has two halves with the call to the backend
//! between them: `prepare` decides what to send, `conclude` decides what the
//! answer means. `handle` joins the halves around a backend given as a
//! function, and `respond` turns the result into an HTTP reply.

use crate::model::{
    result_view, BackendOutcome, BackendOutcomeView, ChatRequest, ChatResponse, ChatResponseView,
    ErrorKind, HttpReply, HttpReplyView, InferenceRequest, InferenceRequestView,
    InferenceResponseView, ReplyBody, ReplyBodyView,
};
use crate::prompt::{build_inference_request, inference_request_for};
use crate::text::{is_blank, text_is_blank, trimmed};
use vstd::prelude::*;

verus! {

/// Status of a reply that carries a generated text.
pub const STATUS_OK: u16 = 200;

/// Status of a reply to a message that was refused.
pub const STATUS_BAD_REQUEST: u16 = 400;

/// Status of a reply after the backend failed.
pub const STATUS_INTERNAL_SERVER_ERROR: u16 = 500;

/// What the first half of an exchange decides: a blank message is refused,
/// any other message is forwarded.
pub open spec fn prepared(message: Seq<char>) -> Result<InferenceRequestView, ErrorKind> {
    if is_blank(message) {
        Err(ErrorKind::EmptyInput)
    } else {
        Ok(inference_request_for(message))
    }
}

/// What the second half of an exchange decides: the generated text is handed
/// on as it came, and each failure of the backend has its own error.
pub open spec fn concluded(outcome: BackendOutcomeView) -> Result<ChatResponseView, ErrorKind> {
    match outcome {
        BackendOutcomeView::Unreachable => Err(ErrorKind::BackendUnreachable),
        BackendOutcomeView::Malformed => Err(ErrorKind::BackendResponseInvalid),
        BackendOutcomeView::Generated(answer) => Ok(
            ChatResponseView { response: answer.response },
        ),
    }
}

/// The result of a whole exchange, given the message and how the call to the
/// backend ends if it is made.
pub open spec fn relayed(message: Seq<char>, outcome: BackendOutcomeView) -> Result<
    ChatResponseView,
    ErrorKind,
> {
    if is_blank(message) {
        Err(ErrorKind::EmptyInput)
    } else {
        concluded(outcome)
    }
}

/// The HTTP status that reports an error.
pub open spec fn status_of(kind: ErrorKind) -> int {
    match kind {
        ErrorKind::EmptyInput => 400,
        ErrorKind::BackendUnreachable => 500,
        ErrorKind::BackendResponseInvalid => 500,
    }
}

/// The sentence that describes an error to the client.
pub open spec fn description_of(kind: ErrorKind) -> Seq<char> {
    match kind {
        ErrorKind::EmptyInput => "Message cannot be empty."@,
        ErrorKind::BackendUnreachable => "Error communicating with LLM"@,
        ErrorKind::BackendResponseInvalid => "Error processing response from LLM"@,
    }
}

/// The reply that reports a result to the client.
pub open spec fn reply_for(result: Result<ChatResponseView, ErrorKind>) -> HttpReplyView {
    match result {
        Ok(response) => HttpReplyView { status: 200, body: ReplyBodyView::Chat(response) },
        Err(kind) => HttpReplyView {
            status: status_of(kind),
            body: ReplyBodyView::Error(description_of(kind)),
        },
    }
}

impl ErrorKind {
    /// The HTTP status that reports this error.
    pub fn status(&self) -> (status: u16)
        ensures
            status == status_of(*self),
    {
        match self {
            ErrorKind::EmptyInput => STATUS_BAD_REQUEST,
            ErrorKind::BackendUnreachable => STATUS_INTERNAL_SERVER_ERROR,
            ErrorKind::BackendResponseInvalid => STATUS_INTERNAL_SERVER_ERROR,
        }
    }

    /// The sentence that describes this error to the client.
    pub fn description(&self) -> (description: &'static str)
        ensures
            description@ == description_of(*self),
    {
        match self {
            ErrorKind::EmptyInput => "Message cannot be empty.",
            ErrorKind::BackendUnreachable => "Error communicating with LLM",
            ErrorKind::BackendResponseInvalid => "Error processing response from LLM",
        }
    }
}

/// First half of an exchange. Refuses a message of which trimming leaves
/// nothing, one that is empty or white space only; for any other message,
/// builds the request to send to the backend.
pub fn prepare(request: &ChatRequest) -> (outbound: Result<InferenceRequest, ErrorKind>)
    ensures
        result_view(outbound) == prepared(request@.message),
        outbound is Err <==> trimmed(request@.message).len() == 0,
{
    if text_is_blank(request.message.as_str()) {
        Err(ErrorKind::EmptyInput)
    } else {
        Ok(build_inference_request(request.message.as_str()))
    }
}

/// Second half of an exchange. Says what the backend's part in it amounts
/// to: the generated text, or the error that stands for the failure.
pub fn conclude(outcome: BackendOutcome) -> (result: Result<ChatResponse, ErrorKind>)
    ensures
        result_view(result) == concluded(outcome@),
{
    match outcome {
        BackendOutcome::Unreachable => Err(ErrorKind::BackendUnreachable),
        BackendOutcome::Malformed => Err(ErrorKind::BackendResponseInvalid),
        BackendOutcome::Generated(answer) => Ok(ChatResponse { response: answer.response }),
    }
}

/// Turns the result of an exchange into the reply for the client.
pub fn respond(result: Result<ChatResponse, ErrorKind>) -> (reply: HttpReply)
    ensures
        reply@ == reply_for(result_view(result)),
{
    match result {
        Ok(response) => HttpReply { status: STATUS_OK, body: ReplyBody::Chat(response) },
        Err(kind) => HttpReply {
            status: kind.status(),
            body: ReplyBody::Error(String::from_str(kind.description())),
        },
    }
}

/// Handles one request from end to end, with the backend given as a
/// function from the request to send to how the attempt ended.
///
/// The backend is called at most once, and only with the request that
/// `prepare` builds. For a blank message it is not called at all: nothing is
/// asked of it then, so it may be a function that must never run.
pub fn handle<B>(request: &ChatRequest, backend: B) -> (result: Result<ChatResponse, ErrorKind>)
    where B: FnOnce(InferenceRequest) -> BackendOutcome,
    requires
        forall|outbound: InferenceRequest|
            prepared(request@.message) == Ok::<InferenceRequestView, ErrorKind>(outbound@)
                ==> backend.requires((outbound,)),
    ensures
        is_blank(request@.message) ==> result_view(result) == Err::<ChatResponseView, ErrorKind>(
            ErrorKind::EmptyInput,
        ),
        !is_blank(request@.message) ==> exists|outbound: InferenceRequest, outcome: BackendOutcome|
            {
                &&& outbound@ == inference_request_for(request@.message)
                &&& backend.ensures((outbound,), outcome)
                &&& result_view(result) == relayed(request@.message, outcome@)
            },
{
    match prepare(request) {
        Err(kind) => Err(kind),
        Ok(outbound) => {
            let outcome = backend(outbound);
            conclude(outcome)
        },
    }
}

/// Handles one request from end to end and reports the result as an HTTP
/// reply. The backend is used as in `handle`.
pub fn handle_chat<B>(request: &ChatRequest, backend: B) -> (reply: HttpReply)
    where B: FnOnce(InferenceRequest) -> BackendOutcome,
    requires
        forall|outbound: InferenceRequest|
            prepared(request@.message) == Ok::<InferenceRequestView, ErrorKind>(outbound@)
                ==> backend.requires((outbound,)),
    ensures
        is_blank(request@.message) ==> reply@ == reply_for(Err(ErrorKind::EmptyInput)),
        !is_blank(request@.message) ==> exists|outbound: InferenceRequest, outcome: BackendOutcome|
            {
                &&& outbound@ == inference_request_for(request@.message)
                &&& backend.ensures((outbound,), outcome)
                &&& reply@ == reply_for(relayed(request@.message, outcome@))
            },
{
    respond(handle(request, backend))
}

/// A message that is not blank and a backend that generates a text give
/// status 200 and that very text, unchanged, whatever the message and the
/// text are.
pub proof fn lemma_generated_text_is_relayed(message: Seq<char>, text: Seq<char>)
    requires
        !is_blank(message),
    ensures
        relayed(
            message,
            BackendOutcomeView::Generated(InferenceResponseView { response: text }),
        ) == Ok::<ChatResponseView, ErrorKind>(ChatResponseView { response: text }),
        reply_for(
            relayed(
                message,
                BackendOutcomeView::Generated(InferenceResponseView { response: text }),
            ),
        ) == (HttpReplyView {
            status: 200,
            body: ReplyBodyView::Chat(ChatResponseView { response: text }),
        }),
{
}

/// A blank message is refused with status 400 before anything is sent: the
/// first half of the exchange yields no request for the backend, and the
/// result does not depend on what the backend would have done.
pub proof fn lemma_blank_message_is_refused(message: Seq<char>, outcome: BackendOutcomeView)
    requires
        is_blank(message),
    ensures
        prepared(message) == Err::<InferenceRequestView, ErrorKind>(ErrorKind::EmptyInput),
        relayed(message, outcome) == Err::<ChatResponseView, ErrorKind>(ErrorKind::EmptyInput),
        reply_for(relayed(message, outcome)).status == 400,
        reply_for(relayed(message, outcome)).body == ReplyBodyView::Error(
            description_of(ErrorKind::EmptyInput),
        ),
{
}

/// When the call to the backend does not complete, a message that is not
/// blank gets status 500 and the error `BackendUnreachable`.
pub proof fn lemma_unreachable_backend_is_reported(message: Seq<char>)
    requires
        !is_blank(message),
    ensures
        relayed(message, BackendOutcomeView::Unreachable) == Err::<ChatResponseView, ErrorKind>(
            ErrorKind::BackendUnreachable,
        ),
        reply_for(relayed(message, BackendOutcomeView::Unreachable)).status == 500,
        reply_for(relayed(message, BackendOutcomeView::Unreachable)).body == ReplyBodyView::Error(
            description_of(ErrorKind::BackendUnreachable),
        ),
{
}

/// When the backend's answer does not have the expected shape, a message
/// that is not blank gets status 500 and the error `BackendResponseInvalid`.
pub proof fn lemma_malformed_answer_is_reported(message: Seq<char>)
    requires
        !is_blank(message),
    ensures
        relayed(message, BackendOutcomeView::Malformed) == Err::<ChatResponseView, ErrorKind>(
            ErrorKind::BackendResponseInvalid,
        ),
        reply_for(relayed(message, BackendOutcomeView::Malformed)).status == 500,
        reply_for(relayed(message, BackendOutcomeView::Malformed)).body == ReplyBodyView::Error(
            description_of(ErrorKind::BackendResponseInvalid),
        ),
{
}

/// Exchanges do not mix. Whatever two exchanges that are in flight at once
/// hold, each that ends with a response ends with the text that its own call
/// to the backend generated, unchanged.
pub proof fn lemma_exchanges_do_not_interfere(
    first: Seq<char>,
    first_outcome: BackendOutcomeView,
    second: Seq<char>,
    second_outcome: BackendOutcomeView,
)
    ensures
        relayed(first, first_outcome) matches Ok(response) ==> !is_blank(first) && first_outcome
            == BackendOutcomeView::Generated(InferenceResponseView { response: response.response }),
        relayed(second, second_outcome) matches Ok(response) ==> !is_blank(second)
            && second_outcome == BackendOutcomeView::Generated(
            InferenceResponseView { response: response.response },
        ),
{
}

} // verus!
