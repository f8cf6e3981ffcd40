//! Verified core of a UDP-over-TCP relay: the wire format shared by the
//! public relay server and the tunnel client, the decisions both sides take
//! on what they read, and the bookkeeping of the server's event loop.
pub mod frame;
pub mod table;
pub mod reader;
pub mod text;
pub mod relay;
pub mod control;
pub mod channel;
pub mod client;
pub mod echo;
pub mod clock;
