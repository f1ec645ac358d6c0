//! A host for nodes of a simulated distributed system: the message envelope,
//! the initialization handshake, and the node state machines (broadcast,
//! echo, unique-id generation), each with its contract.
pub mod broadcast;
pub mod echo;
pub mod handshake;
pub mod message;
pub mod node;
pub mod session;
pub mod unique_id;
