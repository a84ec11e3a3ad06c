//! The protocol of a tunnel that exposes a TCP service behind NAT on a remote host.
//!
//! A *hub* runs on the remote host, a *spoke* runs next to the service. The spoke opens a control
//! channel to the hub. Whenever a client connects to the hub, the hub asks the spoke over the
//! control channel to open a data channel, and the client is proxied through it.
//!
//! This crate holds what the two sides decide. Sockets, timers and tasks belong to the program
//! around it: it performs the action that a state asks for, and hands back what came of it as an
//! [`Event`](channel::Event).
pub mod address;
pub mod auth;
pub mod buffer;
pub mod channel;
pub mod handshake;
pub mod hub;
pub mod hub_laws;
pub mod laws;
pub mod proxy;
pub mod session;
pub mod spoke;
pub mod spoke_laws;
