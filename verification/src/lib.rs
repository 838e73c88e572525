//! Decision logic of a ppaass proxy: the model of the agent's messages, the
//! flows that answer them, the relays that move data between agent and
//! target, the tunnel and server state machines, and the per-user key cache.
//!
//! Every flow that waits on the network is written as a state machine: the
//! caller performs the action that a step returns and hands the outcome back
//! as the next event. The machines never touch a socket themselves.

pub mod chunk;
pub mod connection;
pub mod dispatcher;
pub mod domain;
pub mod init;
pub mod key_cache;
pub mod message;
pub mod server;
pub mod tcp_connect;
pub mod tcp_relay;
pub mod tunnel;
pub mod udp_relay;
