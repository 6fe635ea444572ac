//! The wrapper around the encrypted stream a completed handshake yields.
//!
//! The wrapper owns its stream exclusively. Byte-stream delegation
//! (read, write, flush, shutdown) is plain non-blocking I/O and lives with
//! the surrounding glue; what this module verifies is the channel-binding
//! computation over the peer's certificate chain.

use vstd::prelude::*;
use tokio_rustls::client::TlsStream;
use crate::binding::{ChannelBinding, channel_binding_of, binding_matches};

verus! {

#[verifier::external_type_specification]
#[verifier::external_body]
#[verifier::reject_recursive_types(IO)]
pub struct ExTlsStream<IO>(TlsStream<IO>);

/// Relies on tokio_rustls::client::TlsStream::get_ref and
/// rustls::ClientConnection::peer_certificates: hands out the certificate
/// chain the peer presented during the handshake as raw DER bytes, leaf
/// first, or nothing when no certificate is available. Which chain the peer
/// presented is the TLS engine's affair, so nothing is promised of it.
#[verifier::external_body]
fn peer_certificates<S>(stream: &TlsStream<S>) -> Option<Vec<Vec<u8>>> {
    let (_, session) = stream.get_ref();
    session
        .peer_certificates()
        .map(|certs| certs.iter().map(|cert| cert.as_ref().to_vec()).collect())
}

/// Owns the encrypted stream produced by a successful handshake and answers
/// the one query the byte-stream interface does not cover: the
/// channel-binding value for the session.
#[verifier::reject_recursive_types(S)]
pub struct RustlsStream<S> {
    /// The encrypted stream itself, exclusively owned by this wrapper for
    /// the rest of the session; the surrounding glue delegates its reads and
    /// writes here.
    pub stream: TlsStream<S>,
    /// The peer's certificate chain, leaf first, captured once when the
    /// wrapper is made. The TLS engine fixes the chain when the handshake
    /// completes and never changes it afterwards, so reading it here is the
    /// same as reading it at each query — and the binding is provably the
    /// same value every time it is asked for.
    chain: Option<Vec<Vec<u8>>>,
}

impl<S> RustlsStream<S> {
    /// The peer certificate chain this wrapper captured at construction.
    pub closed spec fn spec_chain(self) -> Option<Seq<Seq<u8>>> {
        self.chain.deep_view()
    }

    /// The encrypted stream this wrapper owns.
    pub closed spec fn spec_stream(self) -> TlsStream<S> {
        self.stream
    }

    /// Wraps the encrypted stream a completed handshake yielded, capturing
    /// the certificate chain its peer presented.
    pub fn new(stream: TlsStream<S>) -> (wrapper: Self)
        ensures
            wrapper.spec_stream() == stream,
    {
        let chain = peer_certificates(&stream);
        RustlsStream { stream, chain }
    }

    /// The channel binding for this session: the prescribed binding for the
    /// certificate chain the peer presented — the SHA-256 digest of the leaf
    /// certificate when one is there, and no binding otherwise.
    pub fn channel_binding(&self) -> (binding: ChannelBinding)
        ensures
            binding_matches(self.spec_chain(), binding),
            (binding matches ChannelBinding::TlsServerEndPoint(digest) ==> digest@.len() == 32),
    {
        channel_binding_of(&self.chain)
    }
}

} // verus!
