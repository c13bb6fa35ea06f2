//! Control-gateway transport of a service supervisor: a framed binary wire
//! protocol, its codec, and the client and server connection state machines.

pub mod buffer;
pub mod client;
pub mod codec;
pub mod ctl;
pub mod net;
pub mod server;
pub mod types;
