//! Transport layer for a local control-plane daemon.
//!
//! The crate presents one uniform stream abstraction over heterogeneous
//! local transports (TCP, Unix-domain sockets, named pipes) for inbound
//! management connections, and an outbound connector that can traverse an
//! HTTP forward proxy with the CONNECT method, optionally layering TLS on
//! top of the established tunnel.

pub mod addr;
pub mod client;
pub mod codec;
pub mod error;
pub mod incoming;
pub mod listener;
pub mod pid;
pub mod proxy;
pub mod selector;
pub mod stream;
pub mod tunnel;
pub mod unix;
pub mod uri;
