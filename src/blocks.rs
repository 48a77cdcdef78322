//! Block arithmetic shown by the block explorer.

use vstd::prelude::*;
use vstd::arithmetic::power2::pow2;

verus! {

/// Blocks between two halvings of the subsidy.
pub const SUBSIDY_HALVING_INTERVAL: u32 = 210_000;

/// The subsidy of the first blocks, in satoshis (50 BTC).
pub const INITIAL_SUBSIDY: u64 = 5_000_000_000;

/// The subsidy of the block at `height`: the initial subsidy halved (rounding down) once per
/// completed interval, and nothing after 64 halvings.
pub open spec fn subsidy(height: u32) -> nat {
    let halvings = height / SUBSIDY_HALVING_INTERVAL;
    if halvings >= 64 {
        0
    } else {
        INITIAL_SUBSIDY as nat / pow2(halvings as nat)
    }
}

/// The block subsidy in satoshis at `height`.
pub fn get_block_subsidy(height: u32) -> (r: u64)
    ensures
        r == subsidy(height),
{
    let halvings: u32 = height / SUBSIDY_HALVING_INTERVAL;
    if halvings >= 64 {
        return 0;
    }
    let shift: u64 = halvings as u64;
    proof {
        vstd::bits::lemma_u64_shr_is_div(INITIAL_SUBSIDY, shift);
    }
    INITIAL_SUBSIDY >> shift
}

} // verus!
