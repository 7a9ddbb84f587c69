//! The running node: how it comes online and how it reacts to each event.

use vstd::prelude::*;
use crate::address::{address_with_peer, append_peer_id, round_trip_debug, round_trip_text};
use crate::error::P2pError;
use crate::event::{command_views, Command, CommandView, NodeEvent, PeerRecord, Probe};
use crate::status::{
    connected_line, connected_text, disconnected_line, disconnected_text, discovered_line,
    discovered_text, expired_line, expired_text, identified_line, identified_text,
    listening_line, listening_text, local_peer_line, local_peer_text, optional_text,
    ping_failed_line, ping_failed_text, ping_line, ping_text,
};

verus! {

/// What the node does about a new listen address, given the address with
/// the node's peer id appended: it shows it. An address that has no such
/// form is passed over.
pub open spec fn listen_reactions(full_address: Option<Seq<char>>) -> Seq<CommandView> {
    match full_address {
        Some(full) => seq![CommandView::Print { line: listening_text(full) }],
        None => Seq::empty(),
    }
}

/// What the node does about discovered peers: for each, in order, it shows
/// the sighting and then dials the address.
pub open spec fn discovery_reactions(peers: Seq<PeerRecord>) -> Seq<CommandView>
    decreases peers.len(),
{
    if peers.len() == 0 {
        Seq::empty()
    } else {
        discovery_reactions(peers.drop_last()) + seq![
            CommandView::Print { line: discovered_text(peers.last().peer@, peers.last().address@) },
            CommandView::Dial { address: peers.last().address@ },
        ]
    }
}

/// What the node does about expired records: it shows each, in order.
pub open spec fn expiry_reactions(peers: Seq<PeerRecord>) -> Seq<CommandView> {
    Seq::new(
        peers.len(),
        |i: int| CommandView::Print { line: expired_text(peers[i].peer@, peers[i].address@) },
    )
}

/// What the node does about a liveness probe, given the round-trip time as
/// text: it shows the time, or the reason of the failure. The connection is
/// left alone either way.
pub open spec fn liveness_reactions(
    peer: Seq<char>,
    outcome: Result<Seq<char>, Seq<char>>,
) -> Seq<CommandView> {
    match outcome {
        Ok(round_trip) => seq![CommandView::Print { line: ping_text(peer, round_trip) }],
        Err(reason) => seq![CommandView::Print { line: ping_failed_text(peer, reason) }],
    }
}

/// The probe outcome of an event with the round-trip time printed.
pub open spec fn printed_outcome(outcome: Probe) -> Result<Seq<char>, Seq<char>> {
    match outcome {
        Probe::Answered { nanos } => Ok(round_trip_debug(nanos)),
        Probe::Failed { reason } => Err(reason@),
    }
}

/// The commands with which a node whose peer id is `local_peer` answers
/// `event`.
pub open spec fn reactions(local_peer: Seq<char>, event: NodeEvent) -> Seq<CommandView> {
    match event {
        NodeEvent::NewListenAddr { address } => listen_reactions(
            address_with_peer(address@, local_peer),
        ),
        NodeEvent::Discovered { peers } => discovery_reactions(peers@),
        NodeEvent::Expired { peers } => expiry_reactions(peers@),
        NodeEvent::IdentityReceived { peer, protocol_version, agent_version } => seq![
            CommandView::Print {
                line: identified_text(peer@, protocol_version@, agent_version@),
            },
        ],
        NodeEvent::LivenessResult { peer, outcome } => liveness_reactions(
            peer@,
            printed_outcome(outcome),
        ),
        NodeEvent::ConnectionEstablished { peer } => seq![
            CommandView::Print { line: connected_text(peer@) },
        ],
        NodeEvent::ConnectionClosed { peer, cause } => seq![
            CommandView::Print { line: disconnected_text(peer@, optional_text(cause)) },
        ],
        NodeEvent::Other => Seq::empty(),
    }
}

/// The commands for a new listen address; `full_address` is the address
/// with the node's peer id appended, if it has such a form.
pub fn listen_commands(full_address: Option<String>) -> (commands: Vec<Command>)
    ensures
        command_views(commands@) == listen_reactions(optional_text(full_address)),
{
    let mut commands: Vec<Command> = Vec::new();
    match full_address {
        Some(full) => {
            commands.push(Command::Print { line: listening_line(full.as_str()) });
        },
        None => {},
    }
    commands
}

/// The commands for discovered peers: a line and a dial for each.
pub fn discovery_commands(peers: &Vec<PeerRecord>) -> (commands: Vec<Command>)
    ensures
        command_views(commands@) == discovery_reactions(peers@),
{
    let mut commands: Vec<Command> = Vec::new();
    let mut i: usize = 0;
    while i < peers.len()
        invariant
            i <= peers.len(),
            command_views(commands@) == discovery_reactions(peers@.take(i as int)),
        decreases peers.len() - i,
    {
        let record = &peers[i];
        let line = discovered_line(record.peer.as_str(), record.address.as_str());
        let address = record.address.clone();
        let ghost before = command_views(commands@);
        commands.push(Command::Print { line });
        commands.push(Command::Dial { address });
        proof {
            let next = peers@.take(i + 1);
            assert(next.drop_last() =~= peers@.take(i as int));
            assert(command_views(commands@) =~= before + seq![
                CommandView::Print { line: discovered_text(record.peer@, record.address@) },
                CommandView::Dial { address: record.address@ },
            ]);
        }
        i = i + 1;
    }
    assert(peers@.take(i as int) =~= peers@);
    commands
}

/// The commands for expired records: a line for each.
pub fn expiry_commands(peers: &Vec<PeerRecord>) -> (commands: Vec<Command>)
    ensures
        command_views(commands@) == expiry_reactions(peers@),
{
    let mut commands: Vec<Command> = Vec::new();
    let mut i: usize = 0;
    while i < peers.len()
        invariant
            i <= peers.len(),
            commands@.len() == i,
            forall|k: int|
                0 <= k < i ==> (#[trigger] commands@[k])@ == (CommandView::Print {
                    line: expired_text(peers@[k].peer@, peers@[k].address@),
                }),
        decreases peers.len() - i,
    {
        let record = &peers[i];
        let line = expired_line(record.peer.as_str(), record.address.as_str());
        commands.push(Command::Print { line });
        i = i + 1;
    }
    commands
}

/// The commands for a liveness probe; an answered probe comes with its
/// round-trip time as text.
pub fn liveness_commands(peer: &str, outcome: Result<String, String>) -> (commands: Vec<Command>)
    ensures
        command_views(commands@) == liveness_reactions(
            peer@,
            match outcome {
                Ok(round_trip) => Ok(round_trip@),
                Err(reason) => Err(reason@),
            },
        ),
{
    let line = match &outcome {
        Ok(round_trip) => ping_line(peer, round_trip.as_str()),
        Err(reason) => ping_failed_line(peer, reason.as_str()),
    };
    let mut commands: Vec<Command> = Vec::new();
    commands.push(Command::Print { line });
    commands
}

/// A list that holds one status line.
fn single_line(line: String) -> (commands: Vec<Command>)
    ensures
        command_views(commands@) == seq![CommandView::Print { line: line@ }],
{
    let mut commands: Vec<Command> = Vec::new();
    commands.push(Command::Print { line });
    commands
}

/// A node that is online: its transport is built and the swarm has taken
/// its listen address. There is no other way to make one than [`Node::bind`],
/// so no event is handled before the node listens.
pub struct Node {
    local_peer: String,
}

impl Node {
    /// The node's own peer id, as text.
    pub closed spec fn peer(&self) -> Seq<char> {
        self.local_peer@
    }

    /// Brings the node online with the outcome of listening on its address.
    ///
    /// A refused address is fatal: the error carries the cause, and no node
    /// exists to run events on. Otherwise the node shows its peer id.
    pub fn bind(
        local_peer: String,
        listen: Result<(), libp2p::TransportError<std::io::Error>>,
    ) -> (started: Result<(Node, Vec<Command>), P2pError>)
        ensures
            match listen {
                Ok(_) => started is Ok && started->Ok_0.0.peer() == local_peer@ && command_views(
                    started->Ok_0.1@,
                ) == seq![CommandView::Print { line: local_peer_text(local_peer@) }],
                Err(source) => started == Err::<(Node, Vec<Command>), P2pError>(
                    P2pError::Listen { source },
                ),
            },
    {
        match listen {
            Ok(_) => {
                let commands = single_line(local_peer_line(local_peer.as_str()));
                Ok((Node { local_peer }, commands))
            },
            Err(source) => Err(P2pError::listen(source)),
        }
    }

    /// The node's own peer id.
    pub fn local_peer(&self) -> (peer: &String)
        ensures
            peer@ == self.peer(),
    {
        &self.local_peer
    }

    /// Reacts to one event of the swarm. The node itself does not change;
    /// the commands are to be carried out in their order before the next
    /// event is handled.
    pub fn handle_event(&self, event: &NodeEvent) -> (commands: Vec<Command>)
        ensures
            command_views(commands@) == reactions(self.peer(), *event),
    {
        match event {
            NodeEvent::NewListenAddr { address } => listen_commands(
                append_peer_id(address.as_str(), self.local_peer.as_str()),
            ),
            NodeEvent::Discovered { peers } => discovery_commands(peers),
            NodeEvent::Expired { peers } => expiry_commands(peers),
            NodeEvent::IdentityReceived { peer, protocol_version, agent_version } => single_line(
                identified_line(peer.as_str(), protocol_version.as_str(), agent_version.as_str()),
            ),
            NodeEvent::LivenessResult { peer, outcome } => {
                let printed = match outcome {
                    Probe::Answered { nanos } => Ok(round_trip_text(*nanos)),
                    Probe::Failed { reason } => Err(reason.clone()),
                };
                liveness_commands(peer.as_str(), printed)
            },
            NodeEvent::ConnectionEstablished { peer } => single_line(connected_line(peer.as_str())),
            NodeEvent::ConnectionClosed { peer, cause } => single_line(
                disconnected_line(peer.as_str(), cause),
            ),
            NodeEvent::Other => {
                let commands: Vec<Command> = Vec::new();
                commands
            },
        }
    }
}

} // verus!
