//! The membership rules of a transaction pool: the facts known about a pooled
//! transaction, packed into a small bit set, decide which sub-pool it belongs
//! to, and two sub-pools compare by how close they are to execution.

pub mod facts;
pub mod laws;
pub mod message;
pub mod sender;
pub mod state;
pub mod sub_pool;
