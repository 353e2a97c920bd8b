//! Decision logic of a chat relay: a gateway that takes a chat message,
//! forwards it as a prompt to a text-generation backend and hands the
//! generated text back to the caller.
//!
//! The library performs no I/O and keeps no state. It decides what to send to
//! the backend and what to answer the client; the program around it moves the
//! bytes.
//!
//! - `text`: which messages count as blank.
//! - `prompt`: the request that a message is forwarded as.
//! - `backend`: where the backend listens, and a simulated backend.
//! - `relay`: one exchange, from the client's message to the reply.
//! - `model`: the values that pass through an exchange.

pub mod backend;
pub mod model;
pub mod prompt;
pub mod relay;
pub mod text;
