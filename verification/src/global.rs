//! Values shared across the node: the chain type, feature flags and the
//! running flag, together with the parameter getters keyed on them.
//!
//! The process keeps one global value of each, initialised once, and a
//! per-worker override used for test isolation. Rather than hiding them
//! in ambient thread-local storage, the pair of layers is carried
//! explicitly in a [`GlobalState`] handle that callers thread through.
use vstd::prelude::*;
use crate::consensus::{
    graph_weight, spec_graph_weight, HeaderInfo, BASE_EDGE_BITS, BLOCK_KERNEL_WEIGHT,
    BLOCK_OUTPUT_WEIGHT, BLOCK_TIME_SEC, COINBASE_MATURITY, CUT_THROUGH_HORIZON,
    DEFAULT_MIN_EDGE_BITS, DIFFICULTY_ADJUST_WINDOW, INITIAL_DIFFICULTY, MAX_BLOCK_WEIGHT,
    PROOFSIZE, SECOND_POW_EDGE_BITS, STATE_SYNC_THRESHOLD,
};

verus! {

/// The default "local" protocol version for this node.
pub const PROTOCOL_VERSION: u32 = 4;

/// Automated testing edge_bits
pub const AUTOMATED_TESTING_MIN_EDGE_BITS: u8 = 10;

/// Automated testing proof size
pub const AUTOMATED_TESTING_PROOF_SIZE: usize = 8;

/// User testing edge_bits
pub const USER_TESTING_MIN_EDGE_BITS: u8 = 15;

/// User testing proof size
pub const USER_TESTING_PROOF_SIZE: usize = 42;

/// Automated testing coinbase maturity
pub const AUTOMATED_TESTING_COINBASE_MATURITY: u64 = 3;

/// User testing coinbase maturity
pub const USER_TESTING_COINBASE_MATURITY: u64 = 3;

/// Testing cut through horizon in blocks
pub const AUTOMATED_TESTING_CUT_THROUGH_HORIZON: u32 = 20;

/// Testing cut through horizon in blocks
pub const USER_TESTING_CUT_THROUGH_HORIZON: u32 = 70;

/// Testing state sync threshold in blocks
pub const TESTING_STATE_SYNC_THRESHOLD: u32 = 20;

/// Testing initial graph weight
pub const TESTING_INITIAL_GRAPH_WEIGHT: u32 = 1;

/// Testing initial block difficulty
pub const TESTING_INITIAL_DIFFICULTY: u64 = 1;

/// Testing max_block_weight (artificially low, just enough to support a
/// few transactions).
pub const TESTING_MAX_BLOCK_WEIGHT: u64 = 250;

/// Number of blocks to reuse a txhashset zip for (testing chains).
pub const TESTING_TXHASHSET_ARCHIVE_INTERVAL: u64 = 10;

/// Number of blocks to reuse a txhashset zip for (public chains).
pub const TXHASHSET_ARCHIVE_INTERVAL: u64 = 720;

/// Types of chain a server can run with; dictates the genesis block and
/// the mining parameters used.
#[derive(Debug, Clone, Copy, PartialEq, Eq, Structural)]
pub enum ChainTypes {
    /// For CI testing
    AutomatedTesting,
    /// For User testing
    UserTesting,
    /// Protocol testing network
    Floonet,
    /// Main production network
    Mainnet,
}

impl ChainTypes {
    /// Short name representing the chain type ("floo", "main", etc.)
    pub fn shortname(&self) -> (r: String)
        ensures
            *self == ChainTypes::AutomatedTesting ==> r@ == "auto"@,
            *self == ChainTypes::UserTesting ==> r@ == "user"@,
            *self == ChainTypes::Floonet ==> r@ == "floo"@,
            *self == ChainTypes::Mainnet ==> r@ == "main"@,
    {
        match *self {
            ChainTypes::AutomatedTesting => "auto".to_owned(),
            ChainTypes::UserTesting => "user".to_owned(),
            ChainTypes::Floonet => "floo".to_owned(),
            ChainTypes::Mainnet => "main".to_owned(),
        }
    }
}

impl Default for ChainTypes {
    /// The default chain type is the main production network.
    fn default() -> (r: ChainTypes)
        ensures
            r == ChainTypes::Mainnet,
    {
        ChainTypes::Mainnet
    }
}

/// The shared node state: the one-time global chain type and NRD flag,
/// their per-worker overrides, and the server running flag.
pub struct GlobalState {
    /// Chain type initialised once for the whole process.
    pub global_chain_type: Option<ChainTypes>,
    /// Per-worker chain type, set explicitly or cached from the global.
    pub local_chain_type: Option<ChainTypes>,
    /// NRD-kernel feature flag initialised once for the whole process.
    pub global_nrd_enabled: Option<bool>,
    /// Per-worker NRD-kernel feature flag.
    pub local_nrd_enabled: Option<bool>,
    /// Whether the server keeps running; cleared to request a stop.
    pub server_running: bool,
}

impl GlobalState {
    /// The chain type a read through this state resolves to: the worker
    /// override first, the global value as fallback.
    pub open spec fn spec_chain_type(&self) -> Option<ChainTypes> {
        if self.local_chain_type is Some {
            self.local_chain_type
        } else {
            self.global_chain_type
        }
    }

    /// Whether a chain type can be read at all; reading before any
    /// initialisation is a programming error.
    pub open spec fn chain_type_known(&self) -> bool {
        self.spec_chain_type() is Some
    }

    /// The NRD flag a read through this state resolves to: the worker
    /// override first, the global value next, disabled as default.
    pub open spec fn spec_nrd_enabled(&self) -> bool {
        match self.local_nrd_enabled {
            Some(b) => b,
            None => match self.global_nrd_enabled {
                Some(b) => b,
                None => false,
            },
        }
    }

    /// A fresh state: nothing initialised, the server running.
    pub fn new() -> (r: GlobalState)
        ensures
            r.global_chain_type is None,
            r.local_chain_type is None,
            r.global_nrd_enabled is None,
            r.local_nrd_enabled is None,
            r.server_running,
    {
        GlobalState {
            global_chain_type: None,
            local_chain_type: None,
            global_nrd_enabled: None,
            local_nrd_enabled: None,
            server_running: true,
        }
    }
}

/// Set the chain type for this worker only.
pub fn set_local_chain_type(state: &mut GlobalState, new_type: ChainTypes)
    ensures
        *final(state) == (GlobalState { local_chain_type: Some(new_type), ..*old(state) }),
{
    state.local_chain_type = Some(new_type);
}

/// Get the chain type: the worker value, with fallback to the global
/// chain type, which is then cached on the worker.
pub fn get_chain_type(state: &mut GlobalState) -> (r: ChainTypes)
    requires
        old(state).chain_type_known(),
    ensures
        Some(r) == old(state).spec_chain_type(),
        *final(state) == (GlobalState { local_chain_type: Some(r), ..*old(state) }),
{
    match state.local_chain_type {
        Some(t) => t,
        None => {
            let t = state.global_chain_type.unwrap();
            state.local_chain_type = Some(t);
            t
        },
    }
}

/// One-time initialisation of the global chain type; initialising it
/// twice is a programming error.
pub fn init_global_chain_type(state: &mut GlobalState, new_type: ChainTypes)
    requires
        old(state).global_chain_type is None,
    ensures
        *final(state) == (GlobalState { global_chain_type: Some(new_type), ..*old(state) }),
{
    state.global_chain_type = Some(new_type);
}

/// One-time initialisation of the global NRD feature flag; initialising
/// it twice is a programming error.
pub fn init_global_nrd_enabled(state: &mut GlobalState, enabled: bool)
    requires
        old(state).global_nrd_enabled is None,
    ensures
        *final(state) == (GlobalState { global_nrd_enabled: Some(enabled), ..*old(state) }),
{
    state.global_nrd_enabled = Some(enabled);
}

/// Set the NRD feature flag for this worker only.
pub fn set_local_nrd_enabled(state: &mut GlobalState, enabled: bool)
    ensures
        *final(state) == (GlobalState { local_nrd_enabled: Some(enabled), ..*old(state) }),
{
    state.local_nrd_enabled = Some(enabled);
}

/// Is the NRD feature flag enabled? The worker value wins, then the
/// global one; false when neither was ever set.
pub fn is_nrd_enabled(state: &GlobalState) -> (r: bool)
    ensures
        r == state.spec_nrd_enabled(),
{
    match state.local_nrd_enabled {
        Some(b) => b,
        None => match state.global_nrd_enabled {
            Some(b) => b,
            None => false,
        },
    }
}

/// The proof-of-work family selected for one header, with the parameters
/// its verifying context is built from.
#[derive(Debug, Clone, Copy, PartialEq, Eq, Structural)]
pub enum PowContextParams {
    /// ASIC-resistant secondary family.
    CuckarooD {
        /// Graph size of the solution.
        edge_bits: u8,
        /// Number of nonces in a solution.
        proof_size: usize,
    },
    /// ASIC-friendly primary family.
    Cuckatoo {
        /// Graph size of the solution.
        edge_bits: u8,
        /// Number of nonces in a solution.
        proof_size: usize,
        /// Cap on the number of solutions one search may return.
        max_sols: u32,
    },
}

/// Which proof-of-work context `create_pow_context` picks for the given
/// chain type and graph size.
pub open spec fn spec_pow_context(
    chain_type: ChainTypes,
    edge_bits: u8,
    proof_size: usize,
    max_sols: u32,
) -> PowContextParams {
    if (chain_type == ChainTypes::Mainnet || chain_type == ChainTypes::Floonet) && edge_bits <= 29 {
        PowContextParams::CuckarooD { edge_bits, proof_size }
    } else {
        PowContextParams::Cuckatoo { edge_bits, proof_size, max_sols }
    }
}

/// Select the proof-of-work family for one header: on the public chains
/// graphs of at most 29 edge bits verify as cuckaroo-d, larger ones as
/// cuckatoo; the testing chains use cuckatoo only.
pub fn create_pow_context(
    state: &mut GlobalState,
    _height: u64,
    edge_bits: u8,
    proof_size: usize,
    max_sols: u32,
) -> (r: PowContextParams)
    requires
        old(state).chain_type_known(),
    ensures
        Some(r) == (match old(state).spec_chain_type() {
            Some(t) => Some(spec_pow_context(t, edge_bits, proof_size, max_sols)),
            None => None::<PowContextParams>,
        }),
        final(state).spec_chain_type() == old(state).spec_chain_type(),
{
    let chain_type = get_chain_type(state);
    match chain_type {
        ChainTypes::Mainnet => {
            if edge_bits > 29 {
                PowContextParams::Cuckatoo { edge_bits, proof_size, max_sols }
            } else {
                PowContextParams::CuckarooD { edge_bits, proof_size }
            }
        },
        ChainTypes::Floonet => {
            if edge_bits > 29 {
                PowContextParams::Cuckatoo { edge_bits, proof_size, max_sols }
            } else {
                PowContextParams::CuckarooD { edge_bits, proof_size }
            }
        },
        _ => PowContextParams::Cuckatoo { edge_bits, proof_size, max_sols },
    }
}

/// The minimum acceptable edge_bits for the given chain type.
pub open spec fn spec_min_edge_bits(t: ChainTypes) -> u8 {
    match t {
        ChainTypes::AutomatedTesting => AUTOMATED_TESTING_MIN_EDGE_BITS,
        ChainTypes::UserTesting => USER_TESTING_MIN_EDGE_BITS,
        _ => DEFAULT_MIN_EDGE_BITS,
    }
}

/// The minimum acceptable edge_bits.
pub fn min_edge_bits(state: &mut GlobalState) -> (r: u8)
    requires
        old(state).chain_type_known(),
    ensures
        Some(r) == (match old(state).spec_chain_type() {
            Some(t) => Some(spec_min_edge_bits(t)),
            None => None::<u8>,
        }),
        final(state).spec_chain_type() == old(state).spec_chain_type(),
{
    match get_chain_type(state) {
        ChainTypes::AutomatedTesting => AUTOMATED_TESTING_MIN_EDGE_BITS,
        ChainTypes::UserTesting => USER_TESTING_MIN_EDGE_BITS,
        _ => DEFAULT_MIN_EDGE_BITS,
    }
}

/// Reference edge_bits for computing a graph weight on larger graph
/// sizes; changing it is a hard fork.
pub fn base_edge_bits(state: &mut GlobalState) -> (r: u8)
    requires
        old(state).chain_type_known(),
    ensures
        Some(r) == (match old(state).spec_chain_type() {
            Some(ChainTypes::AutomatedTesting) => Some(AUTOMATED_TESTING_MIN_EDGE_BITS),
            Some(ChainTypes::UserTesting) => Some(USER_TESTING_MIN_EDGE_BITS),
            Some(_) => Some(BASE_EDGE_BITS),
            None => None::<u8>,
        }),
        final(state).spec_chain_type() == old(state).spec_chain_type(),
{
    match get_chain_type(state) {
        ChainTypes::AutomatedTesting => AUTOMATED_TESTING_MIN_EDGE_BITS,
        ChainTypes::UserTesting => USER_TESTING_MIN_EDGE_BITS,
        _ => BASE_EDGE_BITS,
    }
}

/// The number of nonces in one proof-of-work solution.
pub fn proofsize(state: &mut GlobalState) -> (r: usize)
    requires
        old(state).chain_type_known(),
    ensures
        Some(r) == (match old(state).spec_chain_type() {
            Some(ChainTypes::AutomatedTesting) => Some(AUTOMATED_TESTING_PROOF_SIZE),
            Some(ChainTypes::UserTesting) => Some(USER_TESTING_PROOF_SIZE),
            Some(_) => Some(PROOFSIZE),
            None => None::<usize>,
        }),
        final(state).spec_chain_type() == old(state).spec_chain_type(),
{
    match get_chain_type(state) {
        ChainTypes::AutomatedTesting => AUTOMATED_TESTING_PROOF_SIZE,
        ChainTypes::UserTesting => USER_TESTING_PROOF_SIZE,
        _ => PROOFSIZE,
    }
}

/// Coinbase maturity: the number of blocks before a coinbase output may
/// be spent.
pub fn coinbase_maturity(state: &mut GlobalState) -> (r: u64)
    requires
        old(state).chain_type_known(),
    ensures
        Some(r) == (match old(state).spec_chain_type() {
            Some(ChainTypes::AutomatedTesting) => Some(AUTOMATED_TESTING_COINBASE_MATURITY),
            Some(ChainTypes::UserTesting) => Some(USER_TESTING_COINBASE_MATURITY),
            Some(_) => Some(COINBASE_MATURITY),
            None => None::<u64>,
        }),
        final(state).spec_chain_type() == old(state).spec_chain_type(),
{
    match get_chain_type(state) {
        ChainTypes::AutomatedTesting => AUTOMATED_TESTING_COINBASE_MATURITY,
        ChainTypes::UserTesting => USER_TESTING_COINBASE_MATURITY,
        _ => COINBASE_MATURITY,
    }
}

/// The difficulty the chain starts at for the given chain type.
pub open spec fn spec_initial_block_difficulty(t: ChainTypes) -> u64 {
    match t {
        ChainTypes::AutomatedTesting => TESTING_INITIAL_DIFFICULTY,
        ChainTypes::UserTesting => TESTING_INITIAL_DIFFICULTY,
        ChainTypes::Floonet => INITIAL_DIFFICULTY,
        ChainTypes::Mainnet => INITIAL_DIFFICULTY,
    }
}

/// Initial mining difficulty.
pub fn initial_block_difficulty(state: &mut GlobalState) -> (r: u64)
    requires
        old(state).chain_type_known(),
    ensures
        Some(r) == (match old(state).spec_chain_type() {
            Some(t) => Some(spec_initial_block_difficulty(t)),
            None => None::<u64>,
        }),
        final(state).spec_chain_type() == old(state).spec_chain_type(),
{
    match get_chain_type(state) {
        ChainTypes::AutomatedTesting => TESTING_INITIAL_DIFFICULTY,
        ChainTypes::UserTesting => TESTING_INITIAL_DIFFICULTY,
        ChainTypes::Floonet => INITIAL_DIFFICULTY,
        ChainTypes::Mainnet => INITIAL_DIFFICULTY,
    }
}

/// The secondary graph-weight scaling the chain starts at.
pub open spec fn spec_initial_graph_weight(t: ChainTypes) -> u32 {
    match t {
        ChainTypes::AutomatedTesting => TESTING_INITIAL_GRAPH_WEIGHT,
        ChainTypes::UserTesting => TESTING_INITIAL_GRAPH_WEIGHT,
        ChainTypes::Floonet => spec_graph_weight(0, SECOND_POW_EDGE_BITS) as u32,
        ChainTypes::Mainnet => spec_graph_weight(0, SECOND_POW_EDGE_BITS) as u32,
    }
}

/// Initial mining secondary scaling.
pub fn initial_graph_weight(state: &mut GlobalState) -> (r: u32)
    requires
        old(state).chain_type_known(),
    ensures
        Some(r) == (match old(state).spec_chain_type() {
            Some(t) => Some(spec_initial_graph_weight(t)),
            None => None::<u32>,
        }),
        final(state).spec_chain_type() == old(state).spec_chain_type(),
{
    match get_chain_type(state) {
        ChainTypes::AutomatedTesting => TESTING_INITIAL_GRAPH_WEIGHT,
        ChainTypes::UserTesting => TESTING_INITIAL_GRAPH_WEIGHT,
        ChainTypes::Floonet => graph_weight(0, SECOND_POW_EDGE_BITS) as u32,
        ChainTypes::Mainnet => graph_weight(0, SECOND_POW_EDGE_BITS) as u32,
    }
}

/// Maximum allowed block weight for the given chain type.
pub open spec fn spec_max_block_weight(t: ChainTypes) -> u64 {
    match t {
        ChainTypes::AutomatedTesting => TESTING_MAX_BLOCK_WEIGHT,
        ChainTypes::UserTesting => TESTING_MAX_BLOCK_WEIGHT,
        ChainTypes::Floonet => MAX_BLOCK_WEIGHT,
        ChainTypes::Mainnet => MAX_BLOCK_WEIGHT,
    }
}

/// Maximum allowed block weight.
pub fn max_block_weight(state: &mut GlobalState) -> (r: u64)
    requires
        old(state).chain_type_known(),
    ensures
        Some(r) == (match old(state).spec_chain_type() {
            Some(t) => Some(spec_max_block_weight(t)),
            None => None::<u64>,
        }),
        final(state).spec_chain_type() == old(state).spec_chain_type(),
{
    match get_chain_type(state) {
        ChainTypes::AutomatedTesting => TESTING_MAX_BLOCK_WEIGHT,
        ChainTypes::UserTesting => TESTING_MAX_BLOCK_WEIGHT,
        ChainTypes::Floonet => MAX_BLOCK_WEIGHT,
        ChainTypes::Mainnet => MAX_BLOCK_WEIGHT,
    }
}

/// Maximum allowed transaction weight: the block capacity less the
/// weight one coinbase output and kernel take up.
pub fn max_tx_weight(state: &mut GlobalState) -> (r: u64)
    requires
        old(state).chain_type_known(),
    ensures
        Some(r) == (match old(state).spec_chain_type() {
            Some(t) => Some(
                if spec_max_block_weight(t) >= BLOCK_OUTPUT_WEIGHT + BLOCK_KERNEL_WEIGHT {
                    (spec_max_block_weight(t) - (BLOCK_OUTPUT_WEIGHT + BLOCK_KERNEL_WEIGHT)) as u64
                } else {
                    0u64
                },
            ),
            None => None::<u64>,
        }),
        final(state).spec_chain_type() == old(state).spec_chain_type(),
{
    let coinbase_weight: u64 = BLOCK_OUTPUT_WEIGHT + BLOCK_KERNEL_WEIGHT;
    max_block_weight(state).saturating_sub(coinbase_weight)
}

/// Horizon at which we can cut through and do full local pruning.
pub fn cut_through_horizon(state: &mut GlobalState) -> (r: u32)
    requires
        old(state).chain_type_known(),
    ensures
        Some(r) == (match old(state).spec_chain_type() {
            Some(ChainTypes::AutomatedTesting) => Some(AUTOMATED_TESTING_CUT_THROUGH_HORIZON),
            Some(ChainTypes::UserTesting) => Some(USER_TESTING_CUT_THROUGH_HORIZON),
            Some(_) => Some(CUT_THROUGH_HORIZON),
            None => None::<u32>,
        }),
        final(state).spec_chain_type() == old(state).spec_chain_type(),
{
    match get_chain_type(state) {
        ChainTypes::AutomatedTesting => AUTOMATED_TESTING_CUT_THROUGH_HORIZON,
        ChainTypes::UserTesting => USER_TESTING_CUT_THROUGH_HORIZON,
        _ => CUT_THROUGH_HORIZON,
    }
}

/// Threshold under which a node catches up by requesting a full
/// txhashset instead of syncing block by block.
pub fn state_sync_threshold(state: &mut GlobalState) -> (r: u32)
    requires
        old(state).chain_type_known(),
    ensures
        Some(r) == (match old(state).spec_chain_type() {
            Some(ChainTypes::AutomatedTesting) => Some(TESTING_STATE_SYNC_THRESHOLD),
            Some(ChainTypes::UserTesting) => Some(TESTING_STATE_SYNC_THRESHOLD),
            Some(_) => Some(STATE_SYNC_THRESHOLD),
            None => None::<u32>,
        }),
        final(state).spec_chain_type() == old(state).spec_chain_type(),
{
    match get_chain_type(state) {
        ChainTypes::AutomatedTesting => TESTING_STATE_SYNC_THRESHOLD,
        ChainTypes::UserTesting => TESTING_STATE_SYNC_THRESHOLD,
        _ => STATE_SYNC_THRESHOLD,
    }
}

/// Number of blocks to reuse a txhashset zip for.
pub fn txhashset_archive_interval(state: &mut GlobalState) -> (r: u64)
    requires
        old(state).chain_type_known(),
    ensures
        Some(r) == (match old(state).spec_chain_type() {
            Some(ChainTypes::AutomatedTesting) => Some(TESTING_TXHASHSET_ARCHIVE_INTERVAL),
            Some(ChainTypes::UserTesting) => Some(TESTING_TXHASHSET_ARCHIVE_INTERVAL),
            Some(_) => Some(TXHASHSET_ARCHIVE_INTERVAL),
            None => None::<u64>,
        }),
        final(state).spec_chain_type() == old(state).spec_chain_type(),
{
    match get_chain_type(state) {
        ChainTypes::AutomatedTesting => TESTING_TXHASHSET_ARCHIVE_INTERVAL,
        ChainTypes::UserTesting => TESTING_TXHASHSET_ARCHIVE_INTERVAL,
        _ => TXHASHSET_ARCHIVE_INTERVAL,
    }
}

/// Are we on a live public network (floonet or mainnet)?
pub fn is_production_mode(state: &mut GlobalState) -> (r: bool)
    requires
        old(state).chain_type_known(),
    ensures
        Some(r) == (match old(state).spec_chain_type() {
            Some(t) => Some(t == ChainTypes::Floonet || t == ChainTypes::Mainnet),
            None => None::<bool>,
        }),
        final(state).spec_chain_type() == old(state).spec_chain_type(),
{
    match get_chain_type(state) {
        ChainTypes::Floonet => true,
        ChainTypes::Mainnet => true,
        _ => false,
    }
}

/// Are we on the protocol testing network?
pub fn is_floonet(state: &mut GlobalState) -> (r: bool)
    requires
        old(state).chain_type_known(),
    ensures
        Some(r) == (match old(state).spec_chain_type() {
            Some(t) => Some(t == ChainTypes::Floonet),
            None => None::<bool>,
        }),
        final(state).spec_chain_type() == old(state).spec_chain_type(),
{
    match get_chain_type(state) {
        ChainTypes::Floonet => true,
        _ => false,
    }
}

/// Are we for real?
pub fn is_mainnet(state: &mut GlobalState) -> (r: bool)
    requires
        old(state).chain_type_known(),
    ensures
        Some(r) == (match old(state).spec_chain_type() {
            Some(t) => Some(t == ChainTypes::Mainnet),
            None => None::<bool>,
        }),
        final(state).spec_chain_type() == old(state).spec_chain_type(),
{
    match get_chain_type(state) {
        ChainTypes::Mainnet => true,
        _ => false,
    }
}

/// Tor port for the libp2p network.
pub fn get_tor_libp2p_port(state: &mut GlobalState) -> (r: u16)
    requires
        old(state).chain_type_known(),
    ensures
        Some(r) == (match old(state).spec_chain_type() {
            Some(t) => Some(if t == ChainTypes::Mainnet { 81u16 } else { 82u16 }),
            None => None::<u16>,
        }),
        final(state).spec_chain_type() == old(state).spec_chain_type(),
{
    if is_mainnet(state) {
        81
    } else {
        82
    }
}

/// Get the network name.
pub fn get_network_name(state: &mut GlobalState) -> (r: String)
    requires
        old(state).chain_type_known(),
    ensures
        old(state).spec_chain_type() == Some(ChainTypes::AutomatedTesting) ==> r@
            == "automatedtests"@,
        old(state).spec_chain_type() == Some(ChainTypes::UserTesting) ==> r@ == "usertestnet"@,
        old(state).spec_chain_type() == Some(ChainTypes::Floonet) ==> r@ == "floonet"@,
        old(state).spec_chain_type() == Some(ChainTypes::Mainnet) ==> r@ == "mainnet"@,
        final(state).spec_chain_type() == old(state).spec_chain_type(),
{
    let name = match get_chain_type(state) {
        ChainTypes::AutomatedTesting => "automatedtests",
        ChainTypes::UserTesting => "usertestnet",
        ChainTypes::Floonet => "floonet",
        ChainTypes::Mainnet => "mainnet",
    };
    name.to_owned()
}

/// Saturating difference of two signed timestamps.
pub open spec fn spec_sat_sub_i64(a: i64, b: i64) -> i64 {
    if a - b > i64::MAX {
        i64::MAX
    } else if a - b < i64::MIN {
        i64::MIN
    } else {
        (a - b) as i64
    }
}

fn sat_sub_i64(a: i64, b: i64) -> (r: i64)
    ensures
        r == spec_sat_sub_i64(a, b),
{
    match a.checked_sub(b) {
        Some(v) => v,
        None => {
            if b > 0 {
                i64::MIN
            } else {
                i64::MAX
            }
        },
    }
}

/// The timestamp delta the window padding projects backwards with: the
/// gap between the two most recent kept entries, or the target block
/// time when fewer than two exist.
pub open spec fn spec_pad_delta(kept: Seq<HeaderInfo>) -> i64 {
    if kept.len() > 1 {
        spec_sat_sub_i64(kept[0].timestamp, kept[1].timestamp)
    } else {
        BLOCK_TIME_SEC
    }
}

/// The synthetic entry the window is seeded with when no difficulty
/// data exists at all: the chain's initial difficulty and scaling,
/// anchored at the epoch (timestamp zero) — the one free choice, since
/// no real entry supplies an anchor.
pub open spec fn spec_window_seed(t: ChainTypes) -> HeaderInfo {
    HeaderInfo {
        timestamp: 0,
        difficulty: spec_initial_block_difficulty(t),
        secondary_scaling: spec_initial_graph_weight(t),
        is_secondary: true,
    }
}

/// The entries the window conversion keeps, most recent first: the
/// first `DIFFICULTY_ADJUST_WINDOW + 1` real entries, or the one
/// synthetic seed when there are none at all.
pub open spec fn spec_window_kept(t: ChainTypes, cursor: Seq<HeaderInfo>) -> Seq<HeaderInfo> {
    let w = (DIFFICULTY_ADJUST_WINDOW + 1) as int;
    if cursor.len() == 0 {
        seq![spec_window_seed(t)]
    } else if cursor.len() > w {
        cursor.take(w)
    } else {
        cursor
    }
}

/// Entry `j` (oldest first) of the converted difficulty window: the
/// kept entries stand at the top in reverse order, and every position
/// below them is a synthetic entry at the newest kept difficulty whose
/// timestamp steps down once more from the earliest kept entry.
pub open spec fn spec_window_entry(t: ChainTypes, cursor: Seq<HeaderInfo>, j: int) -> HeaderInfo {
    let w = (DIFFICULTY_ADJUST_WINDOW + 1) as int;
    let kept = spec_window_kept(t, cursor);
    let k = kept.len() as int;
    if j >= w - k {
        kept[w - 1 - j]
    } else {
        HeaderInfo {
            timestamp: spec_pad_timestamp(kept[k - 1].timestamp, spec_pad_delta(kept), w - k - j),
            difficulty: kept[0].difficulty,
            secondary_scaling: spec_initial_graph_weight(t),
            is_secondary: true,
        }
    }
}

/// The window conversion keeps at least one and at most
/// `DIFFICULTY_ADJUST_WINDOW + 1` entries.
pub proof fn lemma_window_kept_len(t: ChainTypes, cursor: Seq<HeaderInfo>)
    ensures
        1 <= spec_window_kept(t, cursor).len() <= DIFFICULTY_ADJUST_WINDOW + 1,
{
}

/// Converts the most-recent-first difficulty data of the last blocks to
/// a least-recent-first vector of exactly `DIFFICULTY_ADJUST_WINDOW + 1`
/// entries, synthesising perfectly timed pre-genesis blocks at the
/// latest observed difficulty when the chain is still too short, and
/// emitting a whole window at the chain's initial difficulty when no
/// data exists at all.
pub fn difficulty_data_to_vector(state: &mut GlobalState, cursor: Vec<HeaderInfo>) -> (r: Vec<
    HeaderInfo,
>)
    requires
        old(state).chain_type_known(),
    ensures
        r@.len() == DIFFICULTY_ADJUST_WINDOW + 1,
        forall|j: int|
            0 <= j < r@.len() ==> #[trigger] r@[j] == spec_window_entry(
                old(state).spec_chain_type()->Some_0,
                cursor@,
                j,
            ),
        final(state).spec_chain_type() == old(state).spec_chain_type(),
{
    let ghost t = old(state).spec_chain_type()->Some_0;
    let needed_block_count: usize = (DIFFICULTY_ADJUST_WINDOW + 1) as usize;
    let scaling: u32 = initial_graph_weight(state);
    let mut last_n: Vec<HeaderInfo> = Vec::new();
    if cursor.len() == 0 {
        // No difficulty data at all: seed the window with one synthetic
        // entry at the chain's initial difficulty, anchored at the
        // epoch.
        let d: u64 = initial_block_difficulty(state);
        last_n.push(HeaderInfo::from_ts_diff(0, d, scaling));
    } else {
        let mut i: usize = 0;
        while i < cursor.len() && i < needed_block_count
            invariant
                i <= cursor@.len(),
                i <= needed_block_count,
                last_n@ =~= cursor@.take(i as int),
            decreases cursor@.len() - i,
        {
            last_n.push(cursor[i]);
            i = i + 1;
        }
        proof {
            if cursor@.len() <= needed_block_count as int {
                assert(cursor@.take(cursor@.len() as int) =~= cursor@);
            }
        }
    }
    let n: usize = last_n.len();
    let ghost k: int = n as int;
    let ghost kept = spec_window_kept(t, cursor@);
    proof {
        assert(last_n@ =~= kept);
    }
    if needed_block_count > n {
        let last_ts_delta: i64 = if n > 1 {
            sat_sub_i64(last_n[0].timestamp, last_n[1].timestamp)
        } else {
            crate::consensus::BLOCK_TIME_SEC
        };
        let last_diff: u64 = last_n[0].difficulty;

        // Fill in simulated blocks, projecting backwards from the
        // earliest kept entry.
        let mut last_ts: i64 = last_n[n - 1].timestamp;
        let mut j: usize = n;
        while j < needed_block_count
            invariant
                k >= 1,
                k <= j <= needed_block_count,
                last_n@.len() == j,
                last_ts_delta == spec_pad_delta(kept),
                last_diff == kept[0].difficulty,
                last_n@.take(k) =~= kept,
                last_ts == spec_pad_timestamp(kept[k - 1].timestamp, last_ts_delta, j - k),
                forall|m: int|
                    k <= m < j ==> #[trigger] last_n@[m] == (HeaderInfo {
                        timestamp: spec_pad_timestamp(kept[k - 1].timestamp, last_ts_delta, m - k
                            + 1),
                        difficulty: kept[0].difficulty,
                        secondary_scaling: scaling,
                        is_secondary: true,
                    }),
            decreases needed_block_count - j,
        {
            last_ts = sat_sub_i64(last_ts, last_ts_delta);
            last_n.push(HeaderInfo::from_ts_diff(last_ts, last_diff, scaling));
            j = j + 1;
        }
    }
    let mut out: Vec<HeaderInfo> = Vec::new();
    let mut m: usize = last_n.len();
    while m > 0
        invariant
            m <= last_n@.len(),
            out@.len() == last_n@.len() - m,
            forall|p: int| 0 <= p < out@.len() ==> out@[p] == last_n@[last_n@.len() - 1 - p],
        decreases m,
    {
        m = m - 1;
        out.push(last_n[m]);
    }
    proof {
        let w = needed_block_count as int;
        assert(last_n@.take(k) =~= kept);
        assert forall|j: int| 0 <= j < out@.len() implies out@[j] == spec_window_entry(
            t,
            cursor@,
            j,
        ) by {
            assert(out@[j] == last_n@[w - 1 - j]);
            if j >= w - k {
                assert(last_n@[w - 1 - j] == kept[w - 1 - j]);
            } else {
                assert(last_n@[w - 1 - j] == (HeaderInfo {
                    timestamp: spec_pad_timestamp(
                        kept[k - 1].timestamp,
                        spec_pad_delta(kept),
                        w - 1 - j - k + 1,
                    ),
                    difficulty: kept[0].difficulty,
                    secondary_scaling: scaling,
                    is_secondary: true,
                }));
            }
        }
    }
    out
}

/// The difficulty-pad law: in a converted window, the kept entries (the
/// real ones, or the initial-difficulty seed when there were none)
/// stand at the top in reverse order, and every position below them is
/// a synthetic entry at the newest kept difficulty whose timestamp
/// steps down by the last observed delta (or the target block time when
/// fewer than two real entries exist), each step saturating.
pub proof fn lemma_difficulty_pad_window(t: ChainTypes, cursor: Seq<HeaderInfo>, r: Seq<HeaderInfo>)
    requires
        r.len() == DIFFICULTY_ADJUST_WINDOW + 1,
        forall|j: int| 0 <= j < r.len() ==> #[trigger] r[j] == spec_window_entry(t, cursor, j),
    ensures
        1 <= spec_window_kept(t, cursor).len() <= r.len(),
        forall|j: int|
            r.len() - spec_window_kept(t, cursor).len() <= j < r.len() ==> #[trigger] r[j]
                == spec_window_kept(t, cursor)[r.len() - 1 - j],
        forall|j: int|
            0 <= j < r.len() - spec_window_kept(t, cursor).len() ==> #[trigger] r[j]
                == (HeaderInfo {
                timestamp: spec_pad_timestamp(
                    spec_window_kept(t, cursor).last().timestamp,
                    spec_pad_delta(spec_window_kept(t, cursor)),
                    r.len() - spec_window_kept(t, cursor).len() - j,
                ),
                difficulty: spec_window_kept(t, cursor)[0].difficulty,
                secondary_scaling: spec_initial_graph_weight(t),
                is_secondary: true,
            }),
{
    let w = r.len() as int;
    let kept = spec_window_kept(t, cursor);
    let k = kept.len() as int;
    lemma_window_kept_len(t, cursor);
    assert forall|j: int| w - k <= j < w implies r[j] == kept[w - 1 - j] by {
        assert(r[j] == spec_window_entry(t, cursor, j));
    }
    assert forall|j: int| 0 <= j < w - k implies r[j] == (HeaderInfo {
        timestamp: spec_pad_timestamp(kept.last().timestamp, spec_pad_delta(kept), w - k - j),
        difficulty: kept[0].difficulty,
        secondary_scaling: spec_initial_graph_weight(t),
        is_secondary: true,
    }) by {
        assert(r[j] == spec_window_entry(t, cursor, j));
        assert(kept.last() == kept[k - 1]);
    }
}

/// The timestamp of the `steps`-th synthetic entry below the earliest
/// kept one: the anchor stepped down `steps` times by `delta`, each step
/// saturating.
pub open spec fn spec_pad_timestamp(anchor: i64, delta: i64, steps: int) -> i64
    decreases steps,
{
    if steps <= 0 {
        anchor
    } else {
        spec_sat_sub_i64(spec_pad_timestamp(anchor, delta, steps - 1), delta)
    }
}

/// Is the server still running?
pub fn is_server_running(state: &GlobalState) -> (r: bool)
    ensures
        r == state.server_running,
{
    state.server_running
}

/// Ask the server to stop: clears the running flag; everything else is
/// untouched.
pub fn request_server_stop(state: &mut GlobalState)
    ensures
        *final(state) == (GlobalState { server_running: false, ..*old(state) }),
{
    state.server_running = false;
}

} // verus!
