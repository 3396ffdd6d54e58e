//! JSON-RPC messages exchanged with the agent process, and their conversion
//! into SDK messages.

pub mod communication;
pub mod protocol;
