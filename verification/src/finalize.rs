//! The result shape of the server-side conversation-finalize step. The
//! transport that carries it lives outside the library; callers receive the
//! decoded outcome as plain values.

use vstd::prelude::*;

verus! {

/// Response from the conversation-finalize endpoint: whether the evaluation
/// was accepted, with optional counters and an error description.
#[derive(Clone, Debug)]
pub struct FinalizeResponse {
    pub ok: bool,
    pub conversation_id: Option<String>,
    pub discarded: Option<bool>,
    pub words_count: Option<u32>,
    pub segments_count: Option<u32>,
    pub error: Option<String>,
}

} // verus!
