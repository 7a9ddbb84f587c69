//! The two failures that abort node start-up.

use vstd::prelude::*;

verus! {

/// libp2p's error of the noise handshake set-up. Opaque here: it is only
/// carried from the transport builder to the caller.
#[verifier::external_type_specification]
#[verifier::external_body]
pub struct ExNoiseError(libp2p::noise::Error);

/// libp2p's error of `listen_on` and `dial`. Opaque here.
#[verifier::external_type_specification]
#[verifier::external_body]
#[verifier::reject_recursive_types(TErr)]
pub struct ExTransportError<TErr>(libp2p::TransportError<TErr>);

/// std's I/O error, the transport-specific part of a listen failure. Opaque
/// here.
#[verifier::external_type_specification]
#[verifier::external_body]
pub struct ExIoError(std::io::Error);

/// Why a node could not come online. Every other anomaly (a failed dial, a
/// probe that timed out) is an event, never an error.
#[derive(Debug)]
#[allow(inconsistent_fields)]
pub enum P2pError {
    /// The encrypted TCP transport could not be set up.
    Transport { source: libp2p::noise::Error },
    /// The swarm refused the listen address.
    Listen { source: libp2p::TransportError<std::io::Error> },
}

/// What [`P2pError::message`] says of a transport failure.
pub open spec fn transport_message() -> Seq<char> {
    "Could not initialize the TCP transport"@
}

/// What [`P2pError::message`] says of a listen failure.
pub open spec fn listen_message() -> Seq<char> {
    "Could not start listening on the given address"@
}

impl P2pError {
    /// A transport failure with its cause.
    pub fn transport(source: libp2p::noise::Error) -> (e: P2pError)
        ensures
            e == (P2pError::Transport { source }),
    {
        P2pError::Transport { source }
    }

    /// A listen failure with its cause.
    pub fn listen(source: libp2p::TransportError<std::io::Error>) -> (e: P2pError)
        ensures
            e == (P2pError::Listen { source }),
    {
        P2pError::Listen { source }
    }

    /// The human-readable description of the failure, without its cause.
    pub fn message(&self) -> (text: String)
        ensures
            self is Transport ==> text@ == transport_message(),
            self is Listen ==> text@ == listen_message(),
    {
        match self {
            P2pError::Transport { .. } => String::from_str("Could not initialize the TCP transport"),
            P2pError::Listen { .. } => String::from_str("Could not start listening on the given address"),
        }
    }
}

} // verus!
