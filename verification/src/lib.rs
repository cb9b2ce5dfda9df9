//! Message forwarding of a blockchain node's chain service.
//!
//! Messages come from the bus under a routing key: requests of JSON-RPC clients, blocks that
//! consensus has decided, blocks that other nodes send or ask for, and orders of the snapshot
//! tool. [`forward::Forward`] decides what each of them comes to. It does no input or output of
//! its own. A step lists what is to be done and may ask something; whoever runs it does the one
//! in order, finds out the other, and calls [`forward::Forward::resume`] with the answer.
//!
//! [`laws`], [`laws_rpc`] and [`laws_sync`] state what holds of whole conversations,
//! [`laws_steps`] what each step of them does, and [`laws_views`] that the views which all of this
//! is stated over show all that there is.

pub mod block;
pub mod chain;
pub mod consensus;
pub mod conversation;
pub mod dispatch;
pub mod forward;
pub mod laws;
pub mod laws_rpc;
pub mod laws_steps;
pub mod laws_sync;
pub mod laws_views;
pub mod message;
pub mod outside;
pub mod rpc;
pub mod snapshot;
pub mod sync;
pub mod task;
pub mod tx_hashes;
