//! The answer to a plain request: what the backend answered, or a fixed
//! reply when the backend could not be reached.

use vstd::prelude::*;

verus! {

/// The status of the reply to a plain request whose backend is unreachable.
pub const BAD_GATEWAY: u16 = 502;

/// A reply that the proxy makes up itself.
#[derive(Debug, Clone, Copy, PartialEq, Eq)]
pub struct FixedReply {
    pub status: u16,
    pub body: &'static str,
}

/// What the client of a plain request is answered.
#[derive(Debug, Clone, PartialEq, Eq)]
pub enum PlainReply<R> {
    /// The backend's response, untouched.
    Backend(R),
    /// The proxy's own reply: the backend could not be reached.
    Unreachable(FixedReply),
}

impl FixedReply {
    /// Whether this is the reply for an unreachable backend: status 502 and
    /// the plain text `couldn't connect upstream`.
    pub open spec fn is_bad_gateway(self) -> bool {
        self.status == BAD_GATEWAY && self.body@ == "couldn't connect upstream"@
    }
}

/// The reply for an unreachable backend.
pub fn bad_gateway() -> (reply: FixedReply)
    ensures
        reply.is_bad_gateway(),
{
    FixedReply { status: BAD_GATEWAY, body: "couldn't connect upstream" }
}

/// Answers a plain request, given the backend's response or nothing if the
/// backend could not be reached.
pub fn plain_reply<R>(backend: Option<R>) -> (reply: PlainReply<R>)
    ensures
        match backend {
            Some(response) => reply == PlainReply::Backend(response),
            None => reply matches PlainReply::Unreachable(fixed) && fixed.is_bad_gateway(),
        },
{
    match backend {
        Some(response) => PlainReply::Backend(response),
        None => PlainReply::Unreachable(bad_gateway()),
    }
}

} // verus!
