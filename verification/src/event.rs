//! What the swarm reports to the node, and what the node asks in return.

use vstd::prelude::*;

verus! {

/// A peer seen on the local network: its peer id and one of its addresses,
/// both as text.
#[derive(Debug, Clone, PartialEq, Eq)]
pub struct PeerRecord {
    pub peer: String,
    pub address: String,
}

/// How a liveness probe ended. A failure says nothing of the connection,
/// which stays as it is.
#[derive(Debug, Clone, PartialEq, Eq)]
pub enum Probe {
    /// The peer answered after this many nanoseconds.
    Answered { nanos: u64 },
    /// No answer in time, or the transport failed; `reason` says which.
    Failed { reason: String },
}

/// One event of the swarm's single ordered feed.
#[derive(Debug, Clone, PartialEq, Eq)]
pub enum NodeEvent {
    /// The swarm listens on a new local address.
    NewListenAddr { address: String },
    /// Discovery saw these peers for the first time, or at a new address.
    Discovered { peers: Vec<PeerRecord> },
    /// These discovery records lapsed without renewal.
    Expired { peers: Vec<PeerRecord> },
    /// A connected peer described itself.
    IdentityReceived { peer: String, protocol_version: String, agent_version: String },
    /// A liveness probe of the peer ended.
    LivenessResult { peer: String, outcome: Probe },
    /// A connection to the peer was opened.
    ConnectionEstablished { peer: String },
    /// A connection to the peer was closed; `cause` is the error that closed
    /// it, if there was one.
    ConnectionClosed { peer: String, cause: Option<String> },
    /// Any event the node has no reaction to.
    Other,
}

/// What the node asks its caller to do.
#[derive(Debug, Clone, PartialEq, Eq)]
pub enum Command {
    /// Show this status line.
    Print { line: String },
    /// Try to connect to this address; a failure is of no consequence.
    Dial { address: String },
}

/// A [`Command`] as contracts see it.
pub enum CommandView {
    Print { line: Seq<char> },
    Dial { address: Seq<char> },
}

impl View for Command {
    type V = CommandView;

    open spec fn view(&self) -> CommandView {
        match *self {
            Command::Print { line } => CommandView::Print { line: line@ },
            Command::Dial { address } => CommandView::Dial { address: address@ },
        }
    }
}

/// The commands of a list, each by its view and in the list's order.
pub open spec fn command_views(commands: Seq<Command>) -> Seq<CommandView> {
    commands.map_values(|c: Command| c@)
}

} // verus!
