//! Server side of an encrypted TCP relay: the address frame, the
//! resolve-then-try protocol, the connection and acceptor state machines, and
//! the rules of the management datagram channel.
pub mod address;
pub mod utf8;
pub mod lookup;
pub mod manager;
pub mod relay;
pub mod acceptor;
pub mod resolver;
