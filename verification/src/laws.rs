//! What holds of a node's reactions, whatever the events are.

use vstd::prelude::*;
use crate::address::address_with_peer;
use crate::config::identify_protocol_text;
use crate::event::{CommandView, NodeEvent, PeerRecord, Probe};
use crate::node::{discovery_reactions, reactions};
use crate::status::{
    cause_text, cause_text_is_not_empty, connected_text, disconnected_text, discovered_text,
    expired_text, listening_text, optional_text,
};

verus! {

/// Two versions have the same protocol name only if they are the same
/// version: nodes of different versions are told apart by the name alone.
pub proof fn protocol_name_tells_versions_apart(a: Seq<char>, b: Seq<char>)
    requires
        identify_protocol_text(a) == identify_protocol_text(b),
    ensures
        a == b,
{
    let namespace = "/margo/"@;
    let start = namespace.len() as int;
    assert((namespace + a).subrange(start, start + a.len()) =~= a);
    assert((namespace + b).subrange(start, start + b.len()) =~= b);
}

/// A new listen address that libp2p accepts is shown exactly once, and the
/// line carries the address with the node's own peer id appended.
pub proof fn listen_address_shown_once(local_peer: Seq<char>, address: String)
    requires
        address_with_peer(address@, local_peer) is Some,
    ensures
        reactions(local_peer, NodeEvent::NewListenAddr { address }) == seq![
            CommandView::Print {
                line: listening_text(address_with_peer(address@, local_peer)->Some_0),
            },
        ],
{
}

/// Every discovered peer is followed by a connection attempt: the node
/// answers `n` sightings with `2 * n` commands, and for the sighting at
/// index `i` the command at `2 * i` shows it and the command at `2 * i + 1`
/// dials its address.
pub proof fn every_discovered_peer_is_dialed(peers: Seq<PeerRecord>)
    ensures
        discovery_reactions(peers).len() == 2 * peers.len(),
        forall|i: int|
            0 <= i < peers.len() ==> {
                let record = #[trigger] peers[i];
                &&& discovery_reactions(peers)[2 * i] == (CommandView::Print {
                    line: discovered_text(record.peer@, record.address@),
                })
                &&& discovery_reactions(peers)[2 * i + 1] == (CommandView::Dial {
                    address: record.address@,
                })
            },
    decreases peers.len(),
{
    if peers.len() > 0 {
        let front = peers.drop_last();
        every_discovered_peer_is_dialed(front);
        assert forall|i: int| 0 <= i < peers.len() implies {
            let record = #[trigger] peers[i];
            &&& discovery_reactions(peers)[2 * i] == (CommandView::Print {
                line: discovered_text(record.peer@, record.address@),
            })
            &&& discovery_reactions(peers)[2 * i + 1] == (CommandView::Dial {
                address: record.address@,
            })
        } by {
            if i < front.len() {
                assert(front[i] == peers[i]);
            }
        }
    }
}

/// Only a sighting makes the node dial: to every other event it answers
/// with status lines alone. A failed liveness probe, an expired record or a
/// closed connection touches no connection.
pub proof fn only_discovery_dials(local_peer: Seq<char>, event: NodeEvent)
    requires
        !(event is Discovered),
    ensures
        forall|k: int|
            0 <= k < reactions(local_peer, event).len() ==> #[trigger] reactions(
                local_peer,
                event,
            )[k] is Print,
{
}

/// Every expired record is shown exactly once, in the order of the event,
/// and none is dropped.
pub proof fn expired_records_shown_once_each(local_peer: Seq<char>, peers: Vec<PeerRecord>)
    ensures
        reactions(local_peer, NodeEvent::Expired { peers }).len() == peers@.len(),
        forall|i: int|
            0 <= i < peers@.len() ==> #[trigger] reactions(
                local_peer,
                NodeEvent::Expired { peers },
            )[i] == (CommandView::Print {
                line: expired_text(peers@[i].peer@, peers@[i].address@),
            }),
{
}

/// An opened connection is shown exactly once. A closed connection is shown
/// exactly once too, and the cause in its line is never empty.
pub proof fn connection_changes_shown_once(local_peer: Seq<char>, peer: String, cause: Option<String>)
    ensures
        reactions(local_peer, NodeEvent::ConnectionEstablished { peer }) == seq![
            CommandView::Print { line: connected_text(peer@) },
        ],
        reactions(local_peer, NodeEvent::ConnectionClosed { peer, cause }) == seq![
            CommandView::Print { line: disconnected_text(peer@, optional_text(cause)) },
        ],
        cause_text(optional_text(cause)).len() > 0,
{
    cause_text_is_not_empty(optional_text(cause));
}

/// Every liveness probe is shown exactly once, whether it was answered or
/// not.
pub proof fn probe_shown_once(local_peer: Seq<char>, peer: String, outcome: Probe)
    ensures
        reactions(local_peer, NodeEvent::LivenessResult { peer, outcome }).len() == 1,
        reactions(local_peer, NodeEvent::LivenessResult { peer, outcome })[0] is Print,
{
}

} // verus!
