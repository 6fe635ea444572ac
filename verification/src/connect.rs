//! The connector factory and the one-shot negotiation handle it produces.
//!
//! The factory holds the shared, immutable TLS client configuration and turns
//! a hostname into a handle. A hostname the TLS library cannot parse as a
//! server identity never fails the factory call: it yields a handle without
//! an identity, whose only possible outcome is the invalid-hostname error,
//! decided before any transport is touched.

use vstd::prelude::*;
use std::sync::Arc;
use rustls::ClientConfig;
use rustls::pki_types::ServerName;
use tokio_rustls::TlsConnector;

verus! {

#[verifier::external_type_specification]
#[verifier::external_body]
pub struct ExClientConfig(ClientConfig);

#[verifier::external_type_specification]
#[verifier::external_body]
pub struct ExServerName<'a>(ServerName<'a>);

#[verifier::external_type_specification]
#[verifier::external_body]
pub struct ExTlsConnector(TlsConnector);

/// Whether the TLS library accepts a hostname as a server identity (a DNS
/// name or a literal address); acceptance depends on the characters alone.
pub uninterp spec fn is_valid_server_name(hostname: Seq<char>) -> bool;

/// Relies on rustls::pki_types::ServerName::try_from(&str) (with to_owned):
/// parsing succeeds or fails on the characters of the hostname alone.
#[verifier::external_body]
fn parse_server_name(hostname: &str) -> (parsed: Option<ServerName<'static>>)
    ensures
        parsed is Some <==> is_valid_server_name(hostname@),
{
    ServerName::try_from(hostname).ok().map(|name| name.to_owned())
}

/// Relies on tokio_rustls::TlsConnector::from(Arc<ClientConfig>): builds the
/// connector that will drive handshakes with this shared configuration.
#[verifier::external_body]
fn connector_for(config: Arc<ClientConfig>) -> TlsConnector {
    TlsConnector::from(config)
}

/// Relies on std::sync::Arc::clone: the clone refers to the same
/// configuration value, sharing it rather than copying it.
#[verifier::external_body]
fn share_config(config: &Arc<ClientConfig>) -> (shared: Arc<ClientConfig>)
    ensures
        shared == *config,
{
    Arc::clone(config)
}

/// Why a negotiation handle refuses to start a handshake.
#[derive(Debug)]
pub enum TlsError {
    /// The hostname did not parse as a TLS server identity, so the handle
    /// carries nothing to hand a handshake.
    InvalidHostname,
}

/// The identity and connector a handle made from a parseable hostname
/// carries, fixed at creation and consumed by exactly one handshake attempt.
pub struct RustlsConnectData {
    /// The parsed server identity the handshake will validate against.
    pub hostname: ServerName<'static>,
    /// The connector bound to the factory's shared configuration.
    pub connector: TlsConnector,
}

/// A one-shot negotiation handle: either a parsed identity with a connector,
/// or nothing, when the hostname was not a valid server identity.
pub struct RustlsConnect(pub(crate) Option<RustlsConnectData>);

impl RustlsConnect {
    /// Whether the handle carries a parsed identity; without one it can never
    /// begin a handshake.
    pub closed spec fn has_identity(self) -> bool {
        self.0 is Some
    }

    /// What consuming the handle yields: its identity and connector, or the
    /// invalid-hostname error when it carries none.
    pub closed spec fn spec_into_handshake(self) -> Result<RustlsConnectData, TlsError> {
        match self.0 {
            Some(data) => Ok(data),
            None => Err(TlsError::InvalidHostname),
        }
    }

    /// Consumes the handle for its single connection attempt. A handle with
    /// an identity yields it together with the connector; one without fails
    /// at once, before any transport could be touched.
    pub fn into_handshake(self) -> (handshake: Result<RustlsConnectData, TlsError>)
        ensures
            handshake == self.spec_into_handshake(),
            handshake is Ok <==> self.has_identity(),
    {
        match self.0 {
            Some(data) => Ok(data),
            None => Err(TlsError::InvalidHostname),
        }
    }
}

/// The connector factory: holds the shared, immutable TLS client
/// configuration and produces one negotiation handle per connection attempt.
pub struct MakeRustlsConnect {
    config: Arc<ClientConfig>,
}

impl MakeRustlsConnect {
    /// The configuration this factory hands to every connection it makes.
    pub closed spec fn spec_config(self) -> ClientConfig {
        *self.config
    }

    /// Wraps a configuration once; every handle the factory makes shares it.
    pub fn new(config: ClientConfig) -> (factory: Self)
        ensures
            factory.spec_config() == config,
    {
        MakeRustlsConnect { config: Arc::new(config) }
    }

    /// Produces the negotiation handle for one connection to `hostname`.
    /// This never fails: an unparseable hostname yields a handle without an
    /// identity, deferring the failure to connect time.
    pub fn make_tls_connect(&self, hostname: &str) -> (handle: RustlsConnect)
        ensures
            handle.has_identity() <==> is_valid_server_name(hostname@),
    {
        match parse_server_name(hostname) {
            Some(name) => RustlsConnect(
                Some(
                    RustlsConnectData {
                        hostname: name,
                        connector: connector_for(share_config(&self.config)),
                    },
                ),
            ),
            None => RustlsConnect(None),
        }
    }
}

impl Clone for MakeRustlsConnect {
    /// Cloning the factory is cheap: the clone shares the same underlying
    /// configuration rather than copying it.
    fn clone(&self) -> (factory: Self)
        ensures
            factory == *self,
    {
        MakeRustlsConnect { config: share_config(&self.config) }
    }
}

/// Law: a hostname the TLS library refuses to parse still yields a handle —
/// the factory call itself never fails — but that handle's only possible
/// outcome is the invalid-hostname error, decided without any transport.
pub proof fn lemma_unparseable_hostname_never_connects(
    hostname: Seq<char>,
    handle: RustlsConnect,
)
    requires
        !is_valid_server_name(hostname),
        handle.has_identity() <==> is_valid_server_name(hostname),
    ensures
        handle.spec_into_handshake() is Err,
        (handle.spec_into_handshake() matches Err(reason) && reason is InvalidHostname),
{
}

/// Law: a handle made from a parseable hostname always yields its identity
/// and connector to exactly one handshake attempt; the handle is consumed in
/// the act, so no second attempt can be made through it.
pub proof fn lemma_parseable_hostname_yields_handshake(
    hostname: Seq<char>,
    handle: RustlsConnect,
)
    requires
        is_valid_server_name(hostname),
        handle.has_identity() <==> is_valid_server_name(hostname),
    ensures
        handle.spec_into_handshake() is Ok,
{
}

} // verus!
