//! The plain record in which the caller hands one candidate across the
//! boundary: its own metrics and its direct dependency ids, nothing derived.

use crate::fee_rate::FeeRate;
use vstd::prelude::*;

verus! {

/// One candidate as delivered by the caller.  `fee` is already truncated to
/// an integer and `fee_per_size` is the caller's own rate for the item, as an
/// exact ratio; `inputs` lists the ids of the items this one directly
/// depends on.
#[derive(Debug)]
pub struct ThreadTransaction {
    pub uid: u32,
    pub order: u32,
    pub fee: u64,
    pub size: u32,
    pub sigops: u32,
    pub fee_per_size: FeeRate,
    pub inputs: Vec<u32>,
}

} // verus!
