//! Versions of the messages that the consensus engine sends.

use vstd::prelude::*;

verus! {

/// The version of an engine message.
#[derive(Debug, Clone, Copy, PartialEq, Eq, Structural)]
pub enum EngineApiMessageVersion {
    /// Version 1
    V1,
    /// Version 2
    V2,
}

} // verus!
