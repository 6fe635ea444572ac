//! The channel-binding value that ties SQL-layer authentication to the TLS
//! session beneath it: the SHA-256 digest of the peer's leaf certificate,
//! tagged as a "tls-server-end-point" binding, or no binding at all when the
//! peer presented no certificate.

use vstd::prelude::*;

verus! {

/// The SHA-256 digest of a byte sequence, as the digest routine computes it.
pub uninterp spec fn sha256_of(bytes: Seq<u8>) -> Seq<u8>;

/// Relies on ring::digest::digest with ring::digest::SHA256: the digest is a
/// function of the input bytes alone, and a SHA-256 digest is 32 bytes long.
#[verifier::external_body]
fn sha256(bytes: &Vec<u8>) -> (digest: Vec<u8>)
    ensures
        digest@ == sha256_of(bytes@),
        digest@.len() == 32,
{
    ring::digest::digest(&ring::digest::SHA256, bytes.as_slice())
        .as_ref()
        .to_vec()
}

/// The channel-binding value offered to the SQL client's authentication
/// layer once a handshake has completed.
#[derive(Debug)]
pub enum ChannelBinding {
    /// No peer certificate was available, so no binding can be offered.
    NoBinding,
    /// The SHA-256 digest of the peer's leaf certificate, the
    /// "tls-server-end-point" binding the authentication layer expects.
    TlsServerEndPoint(Vec<u8>),
}

/// The binding prescribed for a peer certificate chain, leaf first: the
/// SHA-256 digest of the leaf certificate's raw bytes when at least one
/// certificate is present, and no binding otherwise — never a digest of
/// empty or invented data.
pub open spec fn binding_matches(chain: Option<Seq<Seq<u8>>>, binding: ChannelBinding) -> bool {
    match chain {
        Some(certs) => {
            if certs.len() > 0 {
                binding matches ChannelBinding::TlsServerEndPoint(digest)
                    && digest@ == sha256_of(certs[0])
            } else {
                binding is NoBinding
            }
        },
        None => binding is NoBinding,
    }
}

/// Computes the channel binding for a peer certificate chain handed over as
/// raw DER bytes, leaf first.
pub fn channel_binding_of(chain: &Option<Vec<Vec<u8>>>) -> (binding: ChannelBinding)
    ensures
        binding_matches(chain.deep_view(), binding),
        binding matches ChannelBinding::TlsServerEndPoint(digest) ==> digest@.len() == 32,
{
    match chain {
        Some(certs) => {
            if certs.len() > 0 {
                let digest = sha256(&certs[0]);
                proof {
                    assert(certs.deep_view()[0] =~= certs[0]@);
                }
                ChannelBinding::TlsServerEndPoint(digest)
            } else {
                ChannelBinding::NoBinding
            }
        },
        None => ChannelBinding::NoBinding,
    }
}

/// Law: the channel binding is a function of the peer certificate chain
/// alone — any two bindings prescribed for the same chain agree, variant and
/// bytes alike, so repeated queries of one session return equal values.
pub proof fn lemma_channel_binding_deterministic(
    chain: Option<Seq<Seq<u8>>>,
    first: ChannelBinding,
    second: ChannelBinding,
)
    requires
        binding_matches(chain, first),
        binding_matches(chain, second),
    ensures
        first is NoBinding <==> second is NoBinding,
        (first matches ChannelBinding::TlsServerEndPoint(a) ==> (
            second matches ChannelBinding::TlsServerEndPoint(b) && a@ == b@
        )),
{
}

} // verus!
