//! Verified coordination core of a margo peer-to-peer node.
//!
//! The node's network stack (transport, discovery, identity exchange and
//! liveness probing) is libp2p's. This crate holds the decisions around it:
//! which start-up failures are fatal, which settings the node runs with, and
//! how the node reacts to each event the swarm delivers. The caller performs
//! the I/O, turns each swarm event into a [`event::NodeEvent`], and carries
//! out the [`event::Command`]s that [`node::Node::handle_event`] returns, one
//! event at a time and in order.

pub mod address;
pub mod config;
pub mod error;
pub mod event;
pub mod laws;
pub mod node;
pub mod status;
