//! The status lines of a node, one per observable event.
//!
//! Each line has a spec function that says what it reads, and an executable
//! function that builds it.

use vstd::prelude::*;

verus! {

pub open spec fn startup_text(registry_path: Seq<char>) -> Seq<char> {
    "Starting margo P2P node for registry at `"@ + registry_path + "`"@
}

pub open spec fn local_peer_text(peer: Seq<char>) -> Seq<char> {
    "Local peer ID: "@ + peer
}

pub open spec fn listening_text(full_address: Seq<char>) -> Seq<char> {
    "Listening on "@ + full_address
}

pub open spec fn discovered_text(peer: Seq<char>, address: Seq<char>) -> Seq<char> {
    "mDNS discovered peer: "@ + peer + " at "@ + address
}

pub open spec fn expired_text(peer: Seq<char>, address: Seq<char>) -> Seq<char> {
    "mDNS peer expired: "@ + peer + " at "@ + address
}

pub open spec fn identified_text(
    peer: Seq<char>,
    protocol_version: Seq<char>,
    agent_version: Seq<char>,
) -> Seq<char> {
    "Identified peer "@ + peer + ": "@ + protocol_version + " ("@ + agent_version + ")"@
}

pub open spec fn ping_text(peer: Seq<char>, round_trip: Seq<char>) -> Seq<char> {
    "Ping from "@ + peer + ": "@ + round_trip
}

pub open spec fn ping_failed_text(peer: Seq<char>, reason: Seq<char>) -> Seq<char> {
    "Ping to "@ + peer + " failed: "@ + reason
}

pub open spec fn connected_text(peer: Seq<char>) -> Seq<char> {
    "Connected to "@ + peer
}

/// How the cause of a closed connection reads: `None` for an orderly close,
/// else the error's text between `Some(` and `)`.
pub open spec fn cause_text(cause: Option<Seq<char>>) -> Seq<char> {
    match cause {
        Some(error) => "Some("@ + error + ")"@,
        None => "None"@,
    }
}

pub open spec fn disconnected_text(peer: Seq<char>, cause: Option<Seq<char>>) -> Seq<char> {
    "Disconnected from "@ + peer + ": "@ + cause_text(cause)
}

/// The view of an optional string.
pub open spec fn optional_text(text: Option<String>) -> Option<Seq<char>> {
    match text {
        Some(t) => Some(t@),
        None => None,
    }
}

/// The line shown when the node starts for the registry at `registry_path`.
pub fn startup_line(registry_path: &str) -> (line: String)
    ensures
        line@ == startup_text(registry_path@),
{
    let mut line = String::from_str("Starting margo P2P node for registry at `");
    line.append(registry_path);
    line.append("`");
    line
}

/// The line that shows the node's own peer id.
pub fn local_peer_line(peer: &str) -> (line: String)
    ensures
        line@ == local_peer_text(peer@),
{
    let mut line = String::from_str("Local peer ID: ");
    line.append(peer);
    line
}

/// The line for a bound listen address; `full_address` ends in the node's
/// own peer id.
pub fn listening_line(full_address: &str) -> (line: String)
    ensures
        line@ == listening_text(full_address@),
{
    let mut line = String::from_str("Listening on ");
    line.append(full_address);
    line
}

/// The line for a peer that discovery found.
pub fn discovered_line(peer: &str, address: &str) -> (line: String)
    ensures
        line@ == discovered_text(peer@, address@),
{
    let mut line = String::from_str("mDNS discovered peer: ");
    line.append(peer);
    line.append(" at ");
    line.append(address);
    line
}

/// The line for a discovery record that lapsed.
pub fn expired_line(peer: &str, address: &str) -> (line: String)
    ensures
        line@ == expired_text(peer@, address@),
{
    let mut line = String::from_str("mDNS peer expired: ");
    line.append(peer);
    line.append(" at ");
    line.append(address);
    line
}

/// The line for a peer that described itself.
pub fn identified_line(peer: &str, protocol_version: &str, agent_version: &str) -> (line: String)
    ensures
        line@ == identified_text(peer@, protocol_version@, agent_version@),
{
    let mut line = String::from_str("Identified peer ");
    line.append(peer);
    line.append(": ");
    line.append(protocol_version);
    line.append(" (");
    line.append(agent_version);
    line.append(")");
    line
}

/// The line for an answered liveness probe; `round_trip` is the measured
/// time as text.
pub fn ping_line(peer: &str, round_trip: &str) -> (line: String)
    ensures
        line@ == ping_text(peer@, round_trip@),
{
    let mut line = String::from_str("Ping from ");
    line.append(peer);
    line.append(": ");
    line.append(round_trip);
    line
}

/// The line for a liveness probe that failed.
pub fn ping_failed_line(peer: &str, reason: &str) -> (line: String)
    ensures
        line@ == ping_failed_text(peer@, reason@),
{
    let mut line = String::from_str("Ping to ");
    line.append(peer);
    line.append(" failed: ");
    line.append(reason);
    line
}

/// The line for an opened connection.
pub fn connected_line(peer: &str) -> (line: String)
    ensures
        line@ == connected_text(peer@),
{
    let mut line = String::from_str("Connected to ");
    line.append(peer);
    line
}

/// The line for a closed connection, with its cause.
pub fn disconnected_line(peer: &str, cause: &Option<String>) -> (line: String)
    ensures
        line@ == disconnected_text(peer@, optional_text(*cause)),
{
    let mut line = String::from_str("Disconnected from ");
    line.append(peer);
    line.append(": ");
    match cause {
        Some(error) => {
            line.append("Some(");
            line.append(error.as_str());
            line.append(")");
        },
        None => {
            line.append("None");
        },
    }
    line
}

/// The cause of a closed connection is never shown as an empty text.
pub proof fn cause_text_is_not_empty(cause: Option<Seq<char>>)
    ensures
        cause_text(cause).len() > 0,
{
    reveal_strlit("Some(");
    reveal_strlit(")");
    reveal_strlit("None");
}

} // verus!
