use vstd::prelude::*;

use crate::dns_client::SocketAddr;

verus! {

/// The kind of an outbound handler.
#[derive(Clone, Copy, Debug, PartialEq, Eq, Structural)]
pub enum OutboundType {
    Direct,
}

/// The outbound that connects straight to the destination, with no proxy
/// in between.
#[derive(Clone, Copy, Debug, PartialEq, Eq, Structural)]
pub struct Handler;

/// The name under which the direct outbound is known.
pub const PROXY_DIRECT: &'static str = "DIRECT";

impl Handler {
    pub fn new() -> (r: Handler)
        ensures
            r == Handler,
    {
        Handler
    }

    /// The handler's name.
    pub fn name(&self) -> (r: String)
        ensures
            r@ == seq!['D', 'I', 'R', 'E', 'C', 'T'],
    {
        let r = String::from_str(PROXY_DIRECT);
        proof {
            reveal_strlit("DIRECT");
            assert(r@ =~= seq!['D', 'I', 'R', 'E', 'C', 'T']);
        }
        r
    }

    pub fn proto(&self) -> (r: OutboundType)
        ensures
            r == OutboundType::Direct,
    {
        OutboundType::Direct
    }

    /// A direct connection goes to the destination itself: there is no
    /// remote proxy address.
    pub fn remote_addr(&self) -> (r: Option<SocketAddr>)
        ensures
            r is None,
    {
        None
    }

    pub fn support_udp(&self) -> (r: bool)
        ensures
            r,
    {
        true
    }
}

} // verus!
