//! What the node asks of libp2p's address types and of std's durations.
//!
//! Peer ids and multiaddresses travel through this crate in their textual
//! form. Nothing in this file is proved: each function states what the
//! outside code is taken to do.

use vstd::prelude::*;

verus! {

/// The text of the multiaddress `address` with the component `/p2p/<peer>`
/// appended, as libp2p parses and prints it; `None` where libp2p does not
/// accept `address` as a multiaddress or `peer` as a peer id.
pub uninterp spec fn address_with_peer(address: Seq<char>, peer: Seq<char>) -> Option<Seq<char>>;

/// How std prints a duration of `nanos` nanoseconds with `{:?}`.
pub uninterp spec fn round_trip_debug(nanos: u64) -> Seq<char>;

/// Appends the peer id to a multiaddress with libp2p's `Multiaddr::with` and
/// `Protocol::P2p`. Both texts are parsed by libp2p (`Multiaddr::from_str`,
/// `PeerId::from_str`) and the result is printed by `Multiaddr`'s `Display`.
/// Claimed: the outcome depends on the two texts alone, and is `None` exactly
/// where one of them does not parse.
#[verifier::external_body]
pub(crate) fn append_peer_id(address: &str, peer: &str) -> (full: Option<String>)
    ensures
        match full {
            Some(text) => address_with_peer(address@, peer@) == Some(text@),
            None => address_with_peer(address@, peer@).is_none(),
        },
{
    let base: Result<libp2p::Multiaddr, libp2p::multiaddr::Error> = address.parse();
    let id: Result<libp2p::PeerId, libp2p::identity::ParseError> = peer.parse();
    match (base, id) {
        (Ok(base), Ok(id)) => Some(base.with(libp2p::multiaddr::Protocol::P2p(id)).to_string()),
        _ => None,
    }
}

/// Prints a round-trip time with the `Debug` impl of `std::time::Duration`.
/// Claimed: the text depends on the number of nanoseconds alone.
#[verifier::external_body]
pub(crate) fn round_trip_text(nanos: u64) -> (text: String)
    ensures
        text@ == round_trip_debug(nanos),
{
    format!("{:?}", std::time::Duration::from_nanos(nanos))
}

} // verus!
