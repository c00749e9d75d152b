//! The transport-security capability that the orchestrator is handed.

use vstd::prelude::*;

verus! {

/// What a secured stream contributes to authentication: the bytes of a
/// `tls-server-end-point` binding, or nothing.
#[derive(Clone, Debug, PartialEq, Eq)]
pub struct ChannelBinding {
    tls_server_end_point: Option<Vec<u8>>,
}

impl View for ChannelBinding {
    type V = Option<Seq<u8>>;

    closed spec fn view(&self) -> Option<Seq<u8>> {
        match self.tls_server_end_point {
            Some(bytes) => Some(bytes@),
            None => None,
        }
    }
}

impl ChannelBinding {
    /// A stream that offers no channel binding.
    pub fn none() -> (binding: ChannelBinding)
        ensures
            binding@ == None::<Seq<u8>>,
    {
        ChannelBinding { tls_server_end_point: None }
    }

    /// A `tls-server-end-point` binding with the given bytes.
    pub fn tls_server_end_point(bytes: Vec<u8>) -> (binding: ChannelBinding)
        ensures
            binding@ == Some(bytes@),
    {
        ChannelBinding { tls_server_end_point: Some(bytes) }
    }

    /// The bytes of the binding, if there is one.
    pub fn into_bytes(self) -> (bytes: Option<Vec<u8>>)
        ensures
            bytes is Some <==> self@ is Some,
            bytes matches Some(b) ==> self@ == Some(b@),
    {
        self.tls_server_end_point
    }
}

/// A factory of connectors, one for each host that is tried.
pub trait MakeTlsConnect {
    /// The connector that secures one stream.
    type TlsConnect;
    /// Why no connector could be made.
    type Error;

    /// Makes a connector bound to `domain`.
    fn make_tls_connect(&mut self, domain: &str) -> Result<Self::TlsConnect, Self::Error>;
}

} // verus!
