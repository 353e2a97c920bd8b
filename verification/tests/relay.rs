use chat_relay::backend::simulated_backend;
use chat_relay::model::{
    BackendOutcome, ChatRequest, ChatResponse, ErrorKind, HttpReply, InferenceRequest,
    InferenceResponse, ReplyBody,
};
use chat_relay::prompt::{build_inference_request, FORMAT_INSTRUCTION};
use chat_relay::relay::{
    conclude, handle, handle_chat, prepare, respond, STATUS_BAD_REQUEST,
    STATUS_INTERNAL_SERVER_ERROR, STATUS_OK,
};

fn chat(message: &str) -> ChatRequest {
    ChatRequest { message: message.to_string() }
}

fn generated(text: &str) -> BackendOutcome {
    BackendOutcome::Generated(InferenceResponse { response: text.to_string() })
}

fn chat_reply(text: &str) -> HttpReply {
    HttpReply { status: 200, body: ReplyBody::Chat(ChatResponse { response: text.to_string() }) }
}

fn error_reply(status: u16, description: &str) -> HttpReply {
    HttpReply { status, body: ReplyBody::Error(description.to_string()) }
}

#[test]
fn status_codes() {
    assert_eq!(STATUS_OK, 200);
    assert_eq!(STATUS_BAD_REQUEST, 400);
    assert_eq!(STATUS_INTERNAL_SERVER_ERROR, 500);
}

#[test]
fn empty_input_is_a_client_error() {
    assert_eq!(ErrorKind::EmptyInput.status(), 400);
    assert_eq!(ErrorKind::EmptyInput.description(), "Message cannot be empty.");
}

#[test]
fn backend_unreachable_is_a_server_error() {
    assert_eq!(ErrorKind::BackendUnreachable.status(), 500);
    assert_eq!(ErrorKind::BackendUnreachable.description(), "Error communicating with LLM");
}

#[test]
fn backend_response_invalid_is_a_server_error() {
    assert_eq!(ErrorKind::BackendResponseInvalid.status(), 500);
    assert_eq!(
        ErrorKind::BackendResponseInvalid.description(),
        "Error processing response from LLM"
    );
}

#[test]
fn prepare_forwards_a_message() {
    assert_eq!(prepare(&chat("hello")), Ok(build_inference_request("hello")));
    assert_eq!(
        prepare(&chat("hello")),
        Ok(InferenceRequest {
            model: "llama3.2".to_string(),
            prompt: format!("{}hello", FORMAT_INSTRUCTION),
            stream: false,
        })
    );
}

#[test]
fn prepare_forwards_the_message_as_it_came() {
    let outbound = prepare(&chat("  hello \n")).unwrap();
    assert_eq!(outbound.prompt, format!("{}  hello \n", FORMAT_INSTRUCTION));
}

#[test]
fn prepare_refuses_the_empty_message() {
    assert_eq!(prepare(&chat("")), Err(ErrorKind::EmptyInput));
}

#[test]
fn prepare_refuses_white_space() {
    assert_eq!(prepare(&chat("   ")), Err(ErrorKind::EmptyInput));
    assert_eq!(prepare(&chat("\t")), Err(ErrorKind::EmptyInput));
    assert_eq!(prepare(&chat("\r\n")), Err(ErrorKind::EmptyInput));
    assert_eq!(prepare(&chat(" \u{3000} ")), Err(ErrorKind::EmptyInput));
}

#[test]
fn prepare_accepts_what_only_looks_blank() {
    assert!(prepare(&chat("\u{200B}")).is_ok());
    assert!(prepare(&chat(" . ")).is_ok());
}

#[test]
fn conclude_hands_the_text_on() {
    assert_eq!(
        conclude(generated("hi there")),
        Ok(ChatResponse { response: "hi there".to_string() })
    );
}

#[test]
fn conclude_does_not_touch_the_text() {
    let texts = vec!["", " ", "  padded  ", "line\nbreak\n", "```rust\nfn main() {}\n```", "日本語"];
    for text in texts {
        assert_eq!(conclude(generated(text)), Ok(ChatResponse { response: text.to_string() }));
    }
}

#[test]
fn conclude_reports_an_unreachable_backend() {
    assert_eq!(conclude(BackendOutcome::Unreachable), Err(ErrorKind::BackendUnreachable));
}

#[test]
fn conclude_reports_a_malformed_answer() {
    assert_eq!(conclude(BackendOutcome::Malformed), Err(ErrorKind::BackendResponseInvalid));
}

#[test]
fn respond_to_success() {
    assert_eq!(
        respond(Ok(ChatResponse { response: "hi there".to_string() })),
        chat_reply("hi there")
    );
}

#[test]
fn respond_to_each_error() {
    assert_eq!(
        respond(Err(ErrorKind::EmptyInput)),
        error_reply(400, "Message cannot be empty.")
    );
    assert_eq!(
        respond(Err(ErrorKind::BackendUnreachable)),
        error_reply(500, "Error communicating with LLM")
    );
    assert_eq!(
        respond(Err(ErrorKind::BackendResponseInvalid)),
        error_reply(500, "Error processing response from LLM")
    );
}

#[test]
fn handle_relays_the_generated_text() {
    let result = handle(&chat("hello"), |_outbound| generated("hi there"));
    assert_eq!(result, Ok(ChatResponse { response: "hi there".to_string() }));
}

#[test]
fn handle_gives_the_backend_the_prepared_request() {
    let mut received: Option<InferenceRequest> = None;
    let result = handle(&chat(" hello "), |outbound| {
        received = Some(outbound);
        generated("ok")
    });
    assert_eq!(result, Ok(ChatResponse { response: "ok".to_string() }));
    assert_eq!(received, Some(build_inference_request(" hello ")));
}

#[test]
fn handle_calls_the_backend_once() {
    let mut calls: u32 = 0;
    let result = handle(&chat("hello"), |_outbound| {
        calls += 1;
        generated("once")
    });
    assert!(result.is_ok());
    assert_eq!(calls, 1);
}

#[test]
fn handle_refuses_blank_messages_without_calling_the_backend() {
    let messages = vec!["", "   ", "\n", "\t \u{A0}"];
    for message in messages {
        let mut called = false;
        let result = handle(&chat(message), |_outbound| {
            called = true;
            generated("never")
        });
        assert_eq!(result, Err(ErrorKind::EmptyInput), "{:?}", message);
        assert!(!called, "{:?}", message);
    }
}

#[test]
fn handle_reports_an_unreachable_backend() {
    let result = handle(&chat("hello"), |_outbound| BackendOutcome::Unreachable);
    assert_eq!(result, Err(ErrorKind::BackendUnreachable));
}

#[test]
fn handle_reports_a_malformed_answer() {
    let result = handle(&chat("hello"), |_outbound| BackendOutcome::Malformed);
    assert_eq!(result, Err(ErrorKind::BackendResponseInvalid));
}

#[test]
fn hello_gets_the_backend_text_with_status_200() {
    let reply = handle_chat(&chat("hello"), |_outbound| generated("hi there"));
    assert_eq!(reply.status, 200);
    assert_eq!(reply.body, ReplyBody::Chat(ChatResponse { response: "hi there".to_string() }));
}

#[test]
fn empty_message_gets_status_400_and_an_error_string() {
    let reply = handle_chat(&chat(""), |_outbound| generated("never"));
    assert_eq!(reply.status, 400);
    assert_eq!(reply.body, ReplyBody::Error("Message cannot be empty.".to_string()));
}

#[test]
fn blank_message_gets_status_400_and_no_outbound_call() {
    let mut called = false;
    let reply = handle_chat(&chat("   "), |_outbound| {
        called = true;
        BackendOutcome::Unreachable
    });
    assert_eq!(reply, error_reply(400, "Message cannot be empty."));
    assert!(!called);
}

#[test]
fn unreachable_backend_gets_status_500() {
    let reply = handle_chat(&chat("hello"), |_outbound| BackendOutcome::Unreachable);
    assert_eq!(reply, error_reply(500, "Error communicating with LLM"));
}

#[test]
fn malformed_answer_gets_status_500() {
    let reply = handle_chat(&chat("hello"), |_outbound| BackendOutcome::Malformed);
    assert_eq!(reply, error_reply(500, "Error processing response from LLM"));
}

#[test]
fn every_message_that_is_not_blank_gets_the_text_unmodified() {
    let messages = vec!["hello", " hi ", "x", "日本語", "\u{200B}", "{\"message\": \"\"}"];
    let texts = vec!["hi there", "", "  ", "a\nb", "\"quoted\"", "\u{1F600}"];
    for message in &messages {
        for text in &texts {
            let reply = handle_chat(&chat(message), |_outbound| generated(text));
            assert_eq!(reply, chat_reply(text), "{:?} {:?}", message, text);
        }
    }
}

#[test]
fn exchanges_in_flight_do_not_mix() {
    let first = prepare(&chat("first question")).unwrap();
    let second = prepare(&chat("second question")).unwrap();
    assert!(first.prompt.ends_with("first question"));
    assert!(second.prompt.ends_with("second question"));
    let second_reply = respond(conclude(generated("second answer")));
    let first_reply = respond(conclude(generated("first answer")));
    assert_eq!(first_reply, chat_reply("first answer"));
    assert_eq!(second_reply, chat_reply("second answer"));
}

#[test]
fn a_failed_exchange_leaves_the_next_one_alone() {
    let failed = handle_chat(&chat("one"), |_outbound| BackendOutcome::Unreachable);
    let refused = handle_chat(&chat(" "), |_outbound| generated("never"));
    let served = handle_chat(&chat("two"), |_outbound| generated("answer two"));
    assert_eq!(failed.status, 500);
    assert_eq!(refused.status, 400);
    assert_eq!(served, chat_reply("answer two"));
}

#[test]
fn simulated_backend_serves_any_message() {
    let reply = handle_chat(&chat("hello"), simulated_backend);
    assert_eq!(reply, chat_reply("This is a simulated response from the LLM model."));
    let refused = handle_chat(&chat("  "), simulated_backend);
    assert_eq!(refused, error_reply(400, "Message cannot be empty."));
}
