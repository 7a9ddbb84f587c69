use margo_p2p::event::{Command, NodeEvent, PeerRecord, Probe};
use margo_p2p::node::{
    discovery_commands, expiry_commands, listen_commands, liveness_commands, Node,
};

const LOCAL: &str = "12D3KooWRNw2pJC9748Fmq4WNV27HoSTcX3r37132FLkQMrbKAiC";
const REMOTE: &str = "QmcgpsyWgH8Y8ajJz1Cu72KnS5uo2Aa2LpzU7kinSupNKC";

fn online() -> Node {
    match Node::bind(String::from(LOCAL), Ok(())) {
        Ok((node, _)) => node,
        Err(error) => panic!("a node with a bound address is online: {}", error.message()),
    }
}

fn print(line: &str) -> Command {
    Command::Print { line: String::from(line) }
}

fn dial(address: &str) -> Command {
    Command::Dial { address: String::from(address) }
}

fn record(peer: &str, address: &str) -> PeerRecord {
    PeerRecord { peer: String::from(peer), address: String::from(address) }
}

#[test]
fn new_listen_address_is_shown_with_the_peer_id() {
    let event = NodeEvent::NewListenAddr { address: String::from("/ip4/127.0.0.1/tcp/4001") };
    assert_eq!(
        online().handle_event(&event),
        vec![print(&format!("Listening on /ip4/127.0.0.1/tcp/4001/p2p/{LOCAL}"))]
    );
}

#[test]
fn new_listen_address_is_printed_in_canonical_form() {
    let event = NodeEvent::NewListenAddr { address: String::from("/ip6/0:0:0:0:0:0:0:1/tcp/9") };
    assert_eq!(
        online().handle_event(&event),
        vec![print(&format!("Listening on /ip6/::1/tcp/9/p2p/{LOCAL}"))]
    );
}

#[test]
fn empty_listen_address_gets_only_the_peer_id() {
    let event = NodeEvent::NewListenAddr { address: String::new() };
    assert_eq!(online().handle_event(&event), vec![print(&format!("Listening on /p2p/{LOCAL}"))]);
}

#[test]
fn malformed_listen_address_is_passed_over() {
    let event = NodeEvent::NewListenAddr { address: String::from("not an address") };
    assert_eq!(online().handle_event(&event), Vec::<Command>::new());
}

#[test]
fn malformed_local_peer_shows_no_listen_address() {
    let node = match Node::bind(String::from("nobody"), Ok(())) {
        Ok((node, _)) => node,
        Err(_) => panic!("a node with a bound address is online"),
    };
    let event = NodeEvent::NewListenAddr { address: String::from("/ip4/127.0.0.1/tcp/4001") };
    assert_eq!(node.handle_event(&event), Vec::<Command>::new());
}

#[test]
fn listen_commands_show_a_full_address_once() {
    assert_eq!(
        listen_commands(Some(String::from("/ip4/10.0.0.1/tcp/1/p2p/X"))),
        vec![print("Listening on /ip4/10.0.0.1/tcp/1/p2p/X")]
    );
    assert_eq!(listen_commands(None), Vec::<Command>::new());
}

#[test]
fn discovered_peers_are_shown_and_dialed_in_order() {
    let event = NodeEvent::Discovered {
        peers: vec![
            record(REMOTE, "/ip4/192.168.1.7/tcp/4001"),
            record(LOCAL, "/ip4/192.168.1.8/tcp/4002"),
        ],
    };
    assert_eq!(
        online().handle_event(&event),
        vec![
            print(&format!("mDNS discovered peer: {REMOTE} at /ip4/192.168.1.7/tcp/4001")),
            dial("/ip4/192.168.1.7/tcp/4001"),
            print(&format!("mDNS discovered peer: {LOCAL} at /ip4/192.168.1.8/tcp/4002")),
            dial("/ip4/192.168.1.8/tcp/4002"),
        ]
    );
}

#[test]
fn discovery_of_nobody_does_nothing() {
    assert_eq!(discovery_commands(&Vec::new()), Vec::<Command>::new());
    assert_eq!(
        online().handle_event(&NodeEvent::Discovered { peers: Vec::new() }),
        Vec::<Command>::new()
    );
}

#[test]
fn every_sighting_gets_its_own_dial() {
    let peers = vec![record("a", "/x"), record("a", "/x"), record("b", "/y")];
    let commands = discovery_commands(&peers);
    assert_eq!(commands.len(), 6);
    for (i, peer) in peers.iter().enumerate() {
        assert_eq!(
            commands[2 * i],
            print(&format!("mDNS discovered peer: {} at {}", peer.peer, peer.address))
        );
        assert_eq!(commands[2 * i + 1], dial(&peer.address));
    }
}

#[test]
fn expired_peers_are_shown_once_each_and_never_dialed() {
    let peers = vec![record("a", "/x"), record("b", "/y")];
    let expected = vec![print("mDNS peer expired: a at /x"), print("mDNS peer expired: b at /y")];
    assert_eq!(expiry_commands(&peers), expected);
    assert_eq!(online().handle_event(&NodeEvent::Expired { peers }), expected);
    assert_eq!(expiry_commands(&Vec::new()), Vec::<Command>::new());
}

#[test]
fn identity_is_shown() {
    let event = NodeEvent::IdentityReceived {
        peer: String::from(REMOTE),
        protocol_version: String::from("/margo/0.1.0"),
        agent_version: String::from("rust-libp2p/0.57.1"),
    };
    assert_eq!(
        online().handle_event(&event),
        vec![print(&format!("Identified peer {REMOTE}: /margo/0.1.0 (rust-libp2p/0.57.1)"))]
    );
}

#[test]
fn answered_probe_shows_the_round_trip_time() {
    let event = NodeEvent::LivenessResult {
        peer: String::from("peerA"),
        outcome: Probe::Answered { nanos: 1_500_000 },
    };
    assert_eq!(online().handle_event(&event), vec![print("Ping from peerA: 1.5ms")]);
}

#[test]
fn round_trip_times_are_printed_in_their_unit() {
    let node = online();
    let line = |nanos: u64| {
        node.handle_event(&NodeEvent::LivenessResult {
            peer: String::from("p"),
            outcome: Probe::Answered { nanos },
        })
    };
    assert_eq!(line(0), vec![print("Ping from p: 0ns")]);
    assert_eq!(line(42), vec![print("Ping from p: 42ns")]);
    assert_eq!(line(15_000_000_000), vec![print("Ping from p: 15s")]);
    assert_eq!(line(250_000), vec![print("Ping from p: 250µs")]);
}

#[test]
fn failed_probe_shows_the_reason_and_touches_no_connection() {
    let event = NodeEvent::LivenessResult {
        peer: String::from("peerA"),
        outcome: Probe::Failed { reason: String::from("Ping timeout") },
    };
    assert_eq!(online().handle_event(&event), vec![print("Ping to peerA failed: Ping timeout")]);
}

#[test]
fn liveness_commands_take_the_printed_time() {
    assert_eq!(
        liveness_commands("p", Ok(String::from("3s"))),
        vec![print("Ping from p: 3s")]
    );
    assert_eq!(
        liveness_commands("p", Err(String::from("unsupported"))),
        vec![print("Ping to p failed: unsupported")]
    );
}

#[test]
fn two_probe_results_give_two_lines() {
    let node = online();
    let mut lines: Vec<Command> = Vec::new();
    for nanos in [1_000_000u64, 2_000_000u64] {
        lines.extend(node.handle_event(&NodeEvent::LivenessResult {
            peer: String::from("p"),
            outcome: Probe::Answered { nanos },
        }));
    }
    assert_eq!(lines, vec![print("Ping from p: 1ms"), print("Ping from p: 2ms")]);
}

#[test]
fn opened_connection_is_shown_once() {
    let event = NodeEvent::ConnectionEstablished { peer: String::from(REMOTE) };
    assert_eq!(online().handle_event(&event), vec![print(&format!("Connected to {REMOTE}"))]);
}

#[test]
fn closed_connection_is_shown_once_with_its_cause() {
    let node = online();
    let orderly = NodeEvent::ConnectionClosed { peer: String::from("p"), cause: None };
    assert_eq!(node.handle_event(&orderly), vec![print("Disconnected from p: None")]);
    let broken = NodeEvent::ConnectionClosed {
        peer: String::from("p"),
        cause: Some(String::from("IO(Kind(ConnectionReset))")),
    };
    assert_eq!(
        node.handle_event(&broken),
        vec![print("Disconnected from p: Some(IO(Kind(ConnectionReset)))")]
    );
}

#[test]
fn unknown_event_is_ignored() {
    assert_eq!(online().handle_event(&NodeEvent::Other), Vec::<Command>::new());
}

#[test]
fn only_a_sighting_makes_the_node_dial() {
    let node = online();
    let quiet = vec![
        NodeEvent::NewListenAddr { address: String::from("/ip4/127.0.0.1/tcp/1") },
        NodeEvent::Expired { peers: vec![record("a", "/ip4/10.0.0.1/tcp/1")] },
        NodeEvent::IdentityReceived {
            peer: String::from("a"),
            protocol_version: String::from("v"),
            agent_version: String::from("w"),
        },
        NodeEvent::LivenessResult {
            peer: String::from("a"),
            outcome: Probe::Failed { reason: String::from("r") },
        },
        NodeEvent::ConnectionEstablished { peer: String::from("a") },
        NodeEvent::ConnectionClosed { peer: String::from("a"), cause: None },
        NodeEvent::Other,
    ];
    for event in &quiet {
        for command in node.handle_event(event) {
            assert!(matches!(command, Command::Print { .. }));
        }
    }
}

#[test]
fn the_same_event_gets_the_same_reaction() {
    let node = online();
    let event = NodeEvent::Discovered { peers: vec![record("a", "/ip4/10.0.0.1/tcp/1")] };
    assert_eq!(node.handle_event(&event), node.handle_event(&event));
    assert_eq!(node.local_peer(), LOCAL);
}
