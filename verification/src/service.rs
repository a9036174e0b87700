//! The edge to the remote services: how their failures are classed, and
//! where a confirmed transaction can be looked at.

use crate::error::TradeError;
use vstd::prelude::*;
use vstd::string::*;

verus! {

/// How a call of a remote service went, as its driver saw it.
#[derive(Clone, Copy, Debug, PartialEq, Eq, Structural)]
pub struct Reply {
    /// The service was reached and answered.
    pub reached: bool,
    /// The answer reported success.
    pub accepted: bool,
    /// The answer could be decoded into the expected shape.
    pub decoded: bool,
}

/// The failure that a reply amounts to: an upstream error where the service
/// was not reached or answered with a failure, a protocol error where its
/// answer could not be decoded, none otherwise.
pub open spec fn failure_of(reply: Reply) -> Option<TradeError> {
    if !reply.reached || !reply.accepted {
        Some(TradeError::UpstreamError)
    } else if !reply.decoded {
        Some(TradeError::ProtocolError)
    } else {
        None
    }
}

/// Classes a reply of a remote service.
pub fn classify(reply: Reply) -> (r: Option<TradeError>)
    ensures
        r == failure_of(reply),
{
    if !reply.reached || !reply.accepted {
        Some(TradeError::UpstreamError)
    } else if !reply.decoded {
        Some(TradeError::ProtocolError)
    } else {
        None
    }
}

/// Where the transaction `id` can be looked at.
pub open spec fn link_of(id: Seq<char>) -> Seq<char> {
    "https://solscan.io/tx/"@ + id
}

/// The link shown to the user for a confirmed transaction.
pub fn confirmation_link(id: &str) -> (r: String)
    ensures
        r@ == link_of(id@),
{
    let mut link = String::from_str("https://solscan.io/tx/");
    link.append(id);
    link
}

} // verus!
