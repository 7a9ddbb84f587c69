//! The settings a margo node runs its capabilities with.

use vstd::prelude::*;

verus! {

/// Seconds between two liveness probes of a connected peer.
pub const PING_INTERVAL_SECS: u64 = 15;

/// Seconds after which a connection that nothing uses is closed.
pub const IDLE_CONNECTION_TIMEOUT_SECS: u64 = 60;

/// The protocol name that identity exchange announces for `version`:
/// the namespace `/margo/` followed by the version.
pub open spec fn identify_protocol_text(version: Seq<char>) -> Seq<char> {
    "/margo/"@ + version
}

/// The protocol name announced during identity exchange, so that nodes of
/// incompatible versions tell each other apart.
pub fn identify_protocol(version: &str) -> (name: String)
    ensures
        name@ == identify_protocol_text(version@),
{
    let mut name = String::from_str("/margo/");
    name.append(version);
    name
}

} // verus!
