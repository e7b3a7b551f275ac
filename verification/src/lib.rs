//! Client-side control plane of a VPN application.
//!
//! The crate decides what network traffic may leave or enter the machine and
//! supervises the tunnel backends that establish the encrypted tunnel. The
//! three central pieces are a firewall policy compiler that derives a
//! complete, default-deny packet-filter rule set from a firewall policy,
//! a tunnel lifecycle state machine that serializes commands and tunnel
//! events, and a tunnel monitor abstraction that hides the differences
//! between tunnel backends behind one event and close-handle contract.
//!
//! All I/O (process supervision, netlink transport, files, sockets) lives
//! outside this crate; the functions here compute decisions, rule sets and
//! state transitions from plain values.

pub mod compiler;
pub mod endpoint;
pub mod firewall;
pub mod net;
pub mod offline;
pub mod parse;
pub mod policy;
pub mod redact;
pub mod report;
pub mod rules;
pub mod settings;
pub mod state_machine;
pub mod sys;
pub mod text;
pub mod tinc;
pub mod tunnel;

pub use crate::net::IpAddress;
pub use crate::net::Ipv4Address;
pub use crate::net::Ipv6Address;
