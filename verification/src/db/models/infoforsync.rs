//! What a reconciliation pass has left to do.

use vstd::prelude::*;

verus! {

/// The target of a pass and the blocks that it still misses.
#[derive(Clone, Debug)]
pub struct DatabaseInfoForSync {
    pub end_block: u32,
    pub missing_blocks: Vec<u32>,
    pub timestamp: u32,
}

} // verus!
