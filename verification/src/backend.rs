//! The backend's side of an exchange: where the real one listens, and a
//! simulated one that needs no network.

use crate::model::{
    BackendOutcome, BackendOutcomeView, InferenceRequest, InferenceResponse,
    InferenceResponseView,
};
use vstd::prelude::*;

verus! {

/// Where the backend takes requests, by HTTP POST with a JSON body.
pub const BACKEND_URL: &'static str = "http://localhost:11434/api/generate";

/// The text that the simulated backend generates.
pub const SIMULATED_RESPONSE: &'static str = "This is a simulated response from the LLM model.";

/// A backend that reaches no model: it answers every request with the same
/// text.
pub fn simulated_backend(outbound: InferenceRequest) -> (outcome: BackendOutcome)
    ensures
        outcome@ == BackendOutcomeView::Generated(
            InferenceResponseView { response: SIMULATED_RESPONSE@ },
        ),
{
    BackendOutcome::Generated(InferenceResponse { response: String::from_str(SIMULATED_RESPONSE) })
}

} // verus!
