//! The request that goes out to the backend: a fixed model, a fixed
//! instruction in front of the caller's message, and no streaming.

use crate::model::{InferenceRequest, InferenceRequestView};
use crate::text::{leading_white_space, lemma_trimmed, occurs_at, occurs_in, trimmed};
use vstd::prelude::*;

verus! {

/// The model that every request asks for.
pub const MODEL: &'static str = "llama3.2";

/// The instruction that stands in front of every message.
pub const FORMAT_INSTRUCTION: &'static str =
    "Please format your response using markdown when appropriate. Use code blocks with language specification for code. Here's the user's message: ";

/// The prompt for a message: the instruction, then the message as it came,
/// white space at its ends included.
pub open spec fn prompt_for(message: Seq<char>) -> Seq<char> {
    FORMAT_INSTRUCTION@ + message
}

/// The request that a message is forwarded as.
pub open spec fn inference_request_for(message: Seq<char>) -> InferenceRequestView {
    InferenceRequestView { model: MODEL@, prompt: prompt_for(message), stream: false }
}

/// Builds the prompt for a message.
pub fn build_prompt(message: &str) -> (prompt: String)
    ensures
        prompt@ == prompt_for(message@),
{
    let mut prompt = String::from_str(FORMAT_INSTRUCTION);
    prompt.append(message);
    prompt
}

/// Builds the request that a message is forwarded as.
pub fn build_inference_request(message: &str) -> (request: InferenceRequest)
    ensures
        request@ == inference_request_for(message@),
{
    InferenceRequest {
        model: String::from_str(MODEL),
        prompt: build_prompt(message),
        stream: false,
    }
}

/// The prompt of every request begins with the instruction and goes on with
/// the whole message, so it holds what trimming leaves of the message as a
/// substring.
pub proof fn lemma_prompt_holds_message(message: Seq<char>)
    ensures
        inference_request_for(message).prompt == prompt_for(message),
        FORMAT_INSTRUCTION@.is_prefix_of(prompt_for(message)),
        occurs_at(message, prompt_for(message), FORMAT_INSTRUCTION@.len() as int),
        occurs_at(
            trimmed(message),
            prompt_for(message),
            (FORMAT_INSTRUCTION@.len() + leading_white_space(message)) as int,
        ),
        occurs_in(trimmed(message), prompt_for(message)),
{
    let prompt = prompt_for(message);
    let front = FORMAT_INSTRUCTION@.len() as int;
    assert(prompt.subrange(front, front + message.len()) == message);
    lemma_trimmed(message);
    let skipped = leading_white_space(message) as int;
    let kept = trimmed(message).len() as int;
    assert(prompt.subrange(front + skipped, front + skipped + kept) == message.subrange(
        skipped,
        skipped + kept,
    ));
}

} // verus!
