//! Consensus-critical constants and the per-header difficulty record.
use vstd::prelude::*;

verus! {

/// A block is expected every BLOCK_TIME_SEC seconds.
pub const BLOCK_TIME_SEC: i64 = 60;

/// Number of blocks in one hour.
pub const HOUR_HEIGHT: u64 = 60;

/// Number of blocks in one day.
pub const DAY_HEIGHT: u64 = 1440;

/// Number of blocks in one week.
pub const WEEK_HEIGHT: u64 = 10080;

/// Number of blocks in one year.
pub const YEAR_HEIGHT: u64 = 524160;

/// Number of blocks used to calculate difficulty adjustments.
pub const DIFFICULTY_ADJUST_WINDOW: u64 = 60;

/// Default number of blocks in the past when cross-block cut-through will
/// be applied.
pub const CUT_THROUGH_HORIZON: u32 = 2880;

/// Default number of blocks threshold to catch up state sync.
pub const STATE_SYNC_THRESHOLD: u32 = 2880;

/// Coinbase outputs mature after a day's worth of blocks.
pub const COINBASE_MATURITY: u64 = 1440;

/// Weight of an input when counted against the max block weight capacity.
pub const BLOCK_INPUT_WEIGHT: u64 = 1;

/// Weight of an output when counted against the max block weight capacity.
pub const BLOCK_OUTPUT_WEIGHT: u64 = 21;

/// Weight of a kernel when counted against the max block weight capacity.
pub const BLOCK_KERNEL_WEIGHT: u64 = 3;

/// Total maximum block weight.
pub const MAX_BLOCK_WEIGHT: u64 = 40000;

/// Default minimum edge_bits for a proof-of-work graph.
pub const DEFAULT_MIN_EDGE_BITS: u8 = 31;

/// Edge bits of the secondary (ASIC-resistant) proof-of-work family.
pub const SECOND_POW_EDGE_BITS: u8 = 29;

/// Reference edge_bits against which graph weights are scaled; lowering
/// it is a hard fork.
pub const BASE_EDGE_BITS: u8 = 24;

/// Default number of nonces in a proof-of-work solution.
pub const PROOFSIZE: usize = 42;

/// Difficulty the chain starts with on the public networks.
pub const INITIAL_DIFFICULTY: u64 = 1000000;

/// What `graph_weight` returns: the scaled contribution of one graph of
/// the given size at the given height, decaying weekly once the size has
/// expired.
pub open spec fn spec_graph_weight(height: u64, edge_bits: u8) -> u64 {
    let bits_over_min: u8 = if edge_bits >= DEFAULT_MIN_EDGE_BITS {
        (edge_bits - DEFAULT_MIN_EDGE_BITS) as u8
    } else {
        0u8
    };
    let expiry_height: u64 = if (1u64 << bits_over_min) * YEAR_HEIGHT > u64::MAX {
        u64::MAX
    } else {
        ((1u64 << bits_over_min) * YEAR_HEIGHT) as u64
    };
    let decay: int = 1 + (height - expiry_height) / (WEEK_HEIGHT as int);
    let xpr_edge_bits: u64 = if edge_bits < 32 && height >= expiry_height {
        if edge_bits as u64 >= decay {
            (edge_bits as u64 - decay) as u64
        } else {
            0u64
        }
    } else {
        edge_bits as u64
    };
    if edge_bits >= BASE_EDGE_BITS && (2u64 << ((edge_bits - BASE_EDGE_BITS) as u64)) * xpr_edge_bits
        <= u64::MAX {
        ((2u64 << ((edge_bits - BASE_EDGE_BITS) as u64)) * xpr_edge_bits) as u64
    } else {
        0u64
    }
}

/// The scaled proof-of-work contribution of one graph of `edge_bits`
/// size at `height`, relative to the reference graph size.
pub fn graph_weight(height: u64, edge_bits: u8) -> (r: u64)
    requires
        BASE_EDGE_BITS <= edge_bits < 64,
    ensures
        r == spec_graph_weight(height, edge_bits),
{
    let bits_over_min: u8 = if edge_bits >= DEFAULT_MIN_EDGE_BITS {
        edge_bits - DEFAULT_MIN_EDGE_BITS
    } else {
        0
    };
    assert(bits_over_min < 64) by (bit_vector)
        requires
            bits_over_min <= edge_bits < 64,
    ;
    let shifted: u64 = 1u64 << bits_over_min;
    let expiry_height: u64 = match shifted.checked_mul(YEAR_HEIGHT) {
        Some(v) => v,
        None => u64::MAX,
    };
    let mut xpr_edge_bits: u64 = edge_bits as u64;
    if edge_bits < 32 && height >= expiry_height {
        let decay: u64 = 1 + (height - expiry_height) / WEEK_HEIGHT;
        if xpr_edge_bits >= decay {
            xpr_edge_bits = xpr_edge_bits - decay;
        } else {
            xpr_edge_bits = 0;
        }
    }
    let over_base: u64 = (edge_bits - BASE_EDGE_BITS) as u64;
    assert(2u64 << over_base > 0) by (bit_vector)
        requires
            over_base < 40,
    ;
    match (2u64 << over_base).checked_mul(xpr_edge_bits) {
        Some(v) => v,
        None => 0,
    }
}

/// The difficulty data the re-targeting window keeps of one header.
#[derive(Clone, Copy, Debug, PartialEq, Eq, Structural)]
pub struct HeaderInfo {
    /// Timestamp of the header, in seconds since the epoch, treated as a
    /// signed value.
    pub timestamp: i64,
    /// Network difficulty the header was mined at.
    pub difficulty: u64,
    /// Network secondary graph-weight scaling factor at that header.
    pub secondary_scaling: u32,
    /// Whether the header was found with a secondary-family proof.
    pub is_secondary: bool,
}

impl HeaderInfo {
    /// A synthetic entry carrying only a timestamp and difficulty, used
    /// to pad the difficulty window before the chain is long enough.
    pub fn from_ts_diff(timestamp: i64, difficulty: u64, initial_scaling: u32) -> (r: HeaderInfo)
        ensures
            r == (HeaderInfo {
                timestamp,
                difficulty,
                secondary_scaling: initial_scaling,
                is_secondary: true,
            }),
    {
        HeaderInfo { timestamp, difficulty, secondary_scaling: initial_scaling, is_secondary: true }
    }
}

} // verus!
