//! Signaling data posted over HTTP.

use vstd::prelude::*;

verus! {

/// A session description, an ICE candidate, or both.
pub struct SignalRequest {
    pub sdp: Option<String>,
    pub candidate: Option<String>,
}

/// Answers a signaling request with the data it brought.
pub fn signaling_handler(req: SignalRequest) -> (echo: SignalRequest)
    ensures
        echo == req,
{
    req
}

} // verus!
