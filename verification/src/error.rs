//! Error types for the chain: a tagged kind, an optional source error
//! and an optional capture location, and the split of the kinds into
//! peer-punishable bad data and infrastructural failures.
use vstd::prelude::*;
use crate::encoding::{dec_string_of, hex_of, u64_to_string};


verus! {

/// Chain error definitions.
#[derive(Debug)]
pub enum ErrorKind {
    /// The block doesn't fit anywhere in our chain.
    Unfit(String),
    /// Special case of orphan blocks.
    Orphan(String),
    /// Difficulty is too low either compared to ours or the block PoW
    /// hash.
    DifficultyTooLow,
    /// Addition of difficulties on all previous blocks is wrong.
    WrongTotalDifficulty,
    /// Block header edge_bits is lower than our min.
    LowEdgebits,
    /// Block header hash is explicitly rejected.
    InvalidHash,
    /// Scaling factor between primary and secondary PoW is invalid.
    InvalidScaling,
    /// The proof of work is invalid.
    InvalidPow,
    /// Peer abusively sending us an old block we already have.
    OldBlock,
    /// The block doesn't sum correctly or a tx signature is invalid.
    InvalidBlockProof(String),
    /// Block time is too old.
    InvalidBlockTime,
    /// Block height is invalid (not previous + 1).
    InvalidBlockHeight,
    /// One of the root hashes in the block is invalid.
    InvalidRoot(String),
    /// One of the MMR sizes in the block header is invalid.
    InvalidMMRSize,
    /// Error from the underlying keychain.
    Keychain(String),
    /// Error from the underlying elliptic-curve library.
    Secp(String),
    /// One of the inputs in the block has already been spent.
    AlreadySpent(crate::hash::Hash),
    /// An output with that ID already exists (should be unique).
    DuplicateOutputId(crate::hash::Hash),
    /// Attempt to spend a coinbase output before it sufficiently
    /// matures.
    ImmatureCoinbase,
    /// Error validating a Merkle proof (coinbase output).
    MerkleProof(String),
    /// Output not found.
    OutputNotFound(String),
    /// Rangeproof not found.
    RangeproofNotFound(String),
    /// Tx kernel not found.
    TxKernelNotFound,
    /// Output is spent.
    OutputSpent,
    /// Invalid block version, either a mistake or outdated software.
    InvalidBlockVersion(u16),
    /// We've been provided a bad txhashset.
    InvalidTxHashSet(String),
    /// Internal issue when trying to save or load data from the store:
    /// the store's own description, then the wrapped reason.
    StoreErr(String, String),
    /// Internal issue when trying to save or load data from append-only
    /// files.
    FileReadErr(String),
    /// Error serializing or deserializing a type.
    SerErr(String),
    /// Error with the txhashset.
    TxHashSetErr(String),
    /// Tx not valid based on lock_height.
    TxLockHeight,
    /// Tx is not valid due to the NRD relative_height restriction.
    NRDRelativeHeight,
    /// No chain exists and genesis block is required.
    GenesisBlockRequired,
    /// Error from underlying tx handling.
    Transaction(String),
    /// Error from underlying block handling.
    Block(String),
    /// Anything else.
    Other(String),
    /// Error from summing and verifying kernel sums.
    Committed(String),
    /// We cannot process data once the server has been stopped.
    Stopped,
    /// Internal roaring bitmap error.
    Bitmap,
    /// Error during chain sync.
    SyncError(String),
}

/// Whether the kind marks data that was intrinsically wrong, so the
/// peer that sent it is punished; orphans, old-enough data and
/// infrastructural failures are not the block's fault.
pub open spec fn spec_is_bad_data(k: ErrorKind) -> bool {
    match k {
        ErrorKind::Unfit(_) => false,
        ErrorKind::Orphan(_) => false,
        ErrorKind::StoreErr(_, _) => false,
        ErrorKind::FileReadErr(_) => false,
        ErrorKind::SerErr(_) => false,
        ErrorKind::TxHashSetErr(_) => false,
        ErrorKind::GenesisBlockRequired => false,
        ErrorKind::Other(_) => false,
        ErrorKind::Stopped => false,
        ErrorKind::Bitmap => false,
        ErrorKind::SyncError(_) => false,
        _ => true,
    }
}

/// The display text of a kind: the fixed description of the variant,
/// with its payload appended where it has one.
pub open spec fn spec_kind_text(k: ErrorKind) -> Seq<char> {
    match k {
        ErrorKind::Unfit(s) => "Block is unfit: "@ + s@,
        ErrorKind::Orphan(s) => "Orphan, "@ + s@,
        ErrorKind::DifficultyTooLow => "Difficulty is too low compared to ours or the block PoW hash"@,
        ErrorKind::WrongTotalDifficulty => "Addition of difficulties on all previous blocks is wrong"@,
        ErrorKind::LowEdgebits => "Cuckoo Size too small"@,
        ErrorKind::InvalidHash => "Block hash explicitly rejected by chain"@,
        ErrorKind::InvalidScaling => "Wrong scaling factor"@,
        ErrorKind::InvalidPow => "Invalid PoW"@,
        ErrorKind::OldBlock => "Old Block"@,
        ErrorKind::InvalidBlockProof(s) => "Invalid Block Proof, "@ + s@,
        ErrorKind::InvalidBlockTime => "Invalid Block Time"@,
        ErrorKind::InvalidBlockHeight => "Invalid Block Height"@,
        ErrorKind::InvalidRoot(s) => "Invalid Root, "@ + s@,
        ErrorKind::InvalidMMRSize => "Invalid MMR Size"@,
        ErrorKind::Keychain(s) => "Keychain Error, "@ + s@,
        ErrorKind::Secp(s) => "Secp Lib Error, "@ + s@,
        ErrorKind::AlreadySpent(h) => "Already Spent: "@ + hex_of(h@),
        ErrorKind::DuplicateOutputId(h) => "Duplicate Output ID: "@ + hex_of(h@),
        ErrorKind::ImmatureCoinbase => "Attempt to spend immature coinbase"@,
        ErrorKind::MerkleProof(s) => "Error validating merkle proof, "@ + s@,
        ErrorKind::OutputNotFound(s) => "Output not found, "@ + s@,
        ErrorKind::RangeproofNotFound(s) => "Rangeproof not found, "@ + s@,
        ErrorKind::TxKernelNotFound => "Tx kernel not found"@,
        ErrorKind::OutputSpent => "Output is spent"@,
        ErrorKind::InvalidBlockVersion(v) => "Invalid Block Version: "@ + dec_string_of(v as int),
        ErrorKind::InvalidTxHashSet(s) => "Invalid TxHashSet: "@ + s@,
        ErrorKind::StoreErr(e, r) => "Chain Store Error: "@ + r@ + ", reason: "@ + e@,
        ErrorKind::FileReadErr(s) => "Chain File Read Error: "@ + s@,
        ErrorKind::SerErr(s) => "Chain Serialization Error, "@ + s@,
        ErrorKind::TxHashSetErr(s) => "TxHashSetErr: "@ + s@,
        ErrorKind::TxLockHeight => "Invalid Transaction Lock Height"@,
        ErrorKind::NRDRelativeHeight => "NRD Relative Height"@,
        ErrorKind::GenesisBlockRequired => "Genesis Block Required"@,
        ErrorKind::Transaction(s) => "Transaction Validation Error: "@ + s@,
        ErrorKind::Block(s) => "Block Validation Error: "@ + s@,
        ErrorKind::Other(s) => "Chain other Error: "@ + s@,
        ErrorKind::Committed(s) => "Committed Trait: Error summing and verifying kernel sums, "@
            + s@,
        ErrorKind::Stopped => "Stopped (node shutting down)"@,
        ErrorKind::Bitmap => "Roaring Bitmap error"@,
        ErrorKind::SyncError(s) => "Sync error, "@ + s@,
    }
}

impl ErrorKind {
    /// The display text of this kind: fixed description plus payload.
    pub fn text(&self) -> (r: String)
        ensures
            r@ == spec_kind_text(*self),
    {
        match self {
            ErrorKind::Unfit(s) => concat_str("Block is unfit: ", s),
            ErrorKind::Orphan(s) => concat_str("Orphan, ", s),
            ErrorKind::DifficultyTooLow => (
            "Difficulty is too low compared to ours or the block PoW hash").to_owned(),
            ErrorKind::WrongTotalDifficulty => (
            "Addition of difficulties on all previous blocks is wrong").to_owned(),
            ErrorKind::LowEdgebits => "Cuckoo Size too small".to_owned(),
            ErrorKind::InvalidHash => "Block hash explicitly rejected by chain".to_owned(),
            ErrorKind::InvalidScaling => "Wrong scaling factor".to_owned(),
            ErrorKind::InvalidPow => "Invalid PoW".to_owned(),
            ErrorKind::OldBlock => "Old Block".to_owned(),
            ErrorKind::InvalidBlockProof(s) => concat_str("Invalid Block Proof, ", s),
            ErrorKind::InvalidBlockTime => "Invalid Block Time".to_owned(),
            ErrorKind::InvalidBlockHeight => "Invalid Block Height".to_owned(),
            ErrorKind::InvalidRoot(s) => concat_str("Invalid Root, ", s),
            ErrorKind::InvalidMMRSize => "Invalid MMR Size".to_owned(),
            ErrorKind::Keychain(s) => concat_str("Keychain Error, ", s),
            ErrorKind::Secp(s) => concat_str("Secp Lib Error, ", s),
            ErrorKind::AlreadySpent(h) => {
                let mut t = "Already Spent: ".to_owned();
                t.append(h.to_hex().as_str());
                t
            },
            ErrorKind::DuplicateOutputId(h) => {
                let mut t = "Duplicate Output ID: ".to_owned();
                t.append(h.to_hex().as_str());
                t
            },
            ErrorKind::ImmatureCoinbase => "Attempt to spend immature coinbase".to_owned(),
            ErrorKind::MerkleProof(s) => concat_str("Error validating merkle proof, ", s),
            ErrorKind::OutputNotFound(s) => concat_str("Output not found, ", s),
            ErrorKind::RangeproofNotFound(s) => concat_str("Rangeproof not found, ", s),
            ErrorKind::TxKernelNotFound => "Tx kernel not found".to_owned(),
            ErrorKind::OutputSpent => "Output is spent".to_owned(),
            ErrorKind::InvalidBlockVersion(v) => {
                let mut t = "Invalid Block Version: ".to_owned();
                t.append(u64_to_string(*v as u64).as_str());
                t
            },
            ErrorKind::InvalidTxHashSet(s) => concat_str("Invalid TxHashSet: ", s),
            ErrorKind::StoreErr(e, r) => {
                let mut t = "Chain Store Error: ".to_owned();
                t.append(r.as_str());
                t.append(", reason: ");
                t.append(e.as_str());
                t
            },
            ErrorKind::FileReadErr(s) => concat_str("Chain File Read Error: ", s),
            ErrorKind::SerErr(s) => concat_str("Chain Serialization Error, ", s),
            ErrorKind::TxHashSetErr(s) => concat_str("TxHashSetErr: ", s),
            ErrorKind::TxLockHeight => "Invalid Transaction Lock Height".to_owned(),
            ErrorKind::NRDRelativeHeight => "NRD Relative Height".to_owned(),
            ErrorKind::GenesisBlockRequired => "Genesis Block Required".to_owned(),
            ErrorKind::Transaction(s) => concat_str("Transaction Validation Error: ", s),
            ErrorKind::Block(s) => concat_str("Block Validation Error: ", s),
            ErrorKind::Other(s) => concat_str("Chain other Error: ", s),
            ErrorKind::Committed(s) => concat_str(
                "Committed Trait: Error summing and verifying kernel sums, ",
                s,
            ),
            ErrorKind::Stopped => "Stopped (node shutting down)".to_owned(),
            ErrorKind::Bitmap => "Roaring Bitmap error".to_owned(),
            ErrorKind::SyncError(s) => concat_str("Sync error, ", s),
        }
    }

    /// A copy of this kind, payloads included.
    pub fn duplicate(&self) -> (r: ErrorKind)
        ensures
            r == *self,
    {
        match self {
            ErrorKind::Unfit(s) => ErrorKind::Unfit(s.clone()),
            ErrorKind::Orphan(s) => ErrorKind::Orphan(s.clone()),
            ErrorKind::DifficultyTooLow => ErrorKind::DifficultyTooLow,
            ErrorKind::WrongTotalDifficulty => ErrorKind::WrongTotalDifficulty,
            ErrorKind::LowEdgebits => ErrorKind::LowEdgebits,
            ErrorKind::InvalidHash => ErrorKind::InvalidHash,
            ErrorKind::InvalidScaling => ErrorKind::InvalidScaling,
            ErrorKind::InvalidPow => ErrorKind::InvalidPow,
            ErrorKind::OldBlock => ErrorKind::OldBlock,
            ErrorKind::InvalidBlockProof(s) => ErrorKind::InvalidBlockProof(s.clone()),
            ErrorKind::InvalidBlockTime => ErrorKind::InvalidBlockTime,
            ErrorKind::InvalidBlockHeight => ErrorKind::InvalidBlockHeight,
            ErrorKind::InvalidRoot(s) => ErrorKind::InvalidRoot(s.clone()),
            ErrorKind::InvalidMMRSize => ErrorKind::InvalidMMRSize,
            ErrorKind::Keychain(s) => ErrorKind::Keychain(s.clone()),
            ErrorKind::Secp(s) => ErrorKind::Secp(s.clone()),
            ErrorKind::AlreadySpent(h) => ErrorKind::AlreadySpent(*h),
            ErrorKind::DuplicateOutputId(h) => ErrorKind::DuplicateOutputId(*h),
            ErrorKind::ImmatureCoinbase => ErrorKind::ImmatureCoinbase,
            ErrorKind::MerkleProof(s) => ErrorKind::MerkleProof(s.clone()),
            ErrorKind::OutputNotFound(s) => ErrorKind::OutputNotFound(s.clone()),
            ErrorKind::RangeproofNotFound(s) => ErrorKind::RangeproofNotFound(s.clone()),
            ErrorKind::TxKernelNotFound => ErrorKind::TxKernelNotFound,
            ErrorKind::OutputSpent => ErrorKind::OutputSpent,
            ErrorKind::InvalidBlockVersion(v) => ErrorKind::InvalidBlockVersion(*v),
            ErrorKind::InvalidTxHashSet(s) => ErrorKind::InvalidTxHashSet(s.clone()),
            ErrorKind::StoreErr(e, r) => ErrorKind::StoreErr(e.clone(), r.clone()),
            ErrorKind::FileReadErr(s) => ErrorKind::FileReadErr(s.clone()),
            ErrorKind::SerErr(s) => ErrorKind::SerErr(s.clone()),
            ErrorKind::TxHashSetErr(s) => ErrorKind::TxHashSetErr(s.clone()),
            ErrorKind::TxLockHeight => ErrorKind::TxLockHeight,
            ErrorKind::NRDRelativeHeight => ErrorKind::NRDRelativeHeight,
            ErrorKind::GenesisBlockRequired => ErrorKind::GenesisBlockRequired,
            ErrorKind::Transaction(s) => ErrorKind::Transaction(s.clone()),
            ErrorKind::Block(s) => ErrorKind::Block(s.clone()),
            ErrorKind::Other(s) => ErrorKind::Other(s.clone()),
            ErrorKind::Committed(s) => ErrorKind::Committed(s.clone()),
            ErrorKind::Stopped => ErrorKind::Stopped,
            ErrorKind::Bitmap => ErrorKind::Bitmap,
            ErrorKind::SyncError(s) => ErrorKind::SyncError(s.clone()),
        }
    }
}

fn concat_str(prefix: &str, s: &String) -> (r: String)
    ensures
        r@ == prefix@ + s@,
{
    let mut t = prefix.to_owned();
    t.append(s.as_str());
    t
}

/// A chain error: its kind, the description of the error it wraps when
/// there is one, and where it was captured.
#[derive(Debug)]
pub struct Error {
    /// The kind of the error.
    pub kind: ErrorKind,
    /// Description of the wrapped source error, when there is one.
    pub cause: Option<String>,
    /// Where the error was captured, when recorded.
    pub location: Option<String>,
}

impl Error {
    /// The kind this error carries.
    pub open spec fn spec_kind(&self) -> ErrorKind {
        self.kind
    }

    /// The wrapped source error, when there is one.
    pub open spec fn spec_cause(&self) -> Option<String> {
        self.cause
    }

    /// The capture location, when one was recorded.
    pub open spec fn spec_location(&self) -> Option<String> {
        self.location
    }

    /// An error of the given kind with no wrapped source.
    pub fn new(kind: ErrorKind) -> (r: Error)
        ensures
            r.spec_kind() == kind,
            r.spec_cause() is None,
            r.spec_location() is None,
    {
        Error { kind, cause: None, location: None }
    }

    /// An error of the given kind wrapping a source error, with the
    /// location it was captured at.
    pub fn with_source(kind: ErrorKind, cause: String, location: String) -> (r: Error)
        ensures
            r.spec_kind() == kind,
            r.spec_cause() == Some(cause),
            r.spec_location() == Some(location),
    {
        Error { kind, cause: Some(cause), location: Some(location) }
    }

    /// Get the kind.
    pub fn kind(&self) -> (r: ErrorKind)
        ensures
            r == self.spec_kind(),
    {
        self.kind.duplicate()
    }

    /// Get the description of the wrapped source error, if any.
    pub fn cause(&self) -> (r: Option<&String>)
        ensures
            match r {
                Some(c) => self.spec_cause() == Some(*c),
                None => self.spec_cause() is None,
            },
    {
        self.cause.as_ref()
    }

    /// Get the capture location, if one was recorded.
    pub fn backtrace(&self) -> (r: Option<&String>)
        ensures
            match r {
                Some(l) => self.spec_location() == Some(*l),
                None => self.spec_location() is None,
            },
    {
        self.location.as_ref()
    }

    /// Whether the error is due to data that was intrinsically wrong,
    /// so the sending peer is punished; orphans and infrastructural
    /// failures are not.
    pub fn is_bad_data(&self) -> (r: bool)
        ensures
            r == spec_is_bad_data(self.spec_kind()),
    {
        match &self.kind {
            ErrorKind::Unfit(_) => false,
            ErrorKind::Orphan(_) => false,
            ErrorKind::StoreErr(_, _) => false,
            ErrorKind::FileReadErr(_) => false,
            ErrorKind::SerErr(_) => false,
            ErrorKind::TxHashSetErr(_) => false,
            ErrorKind::GenesisBlockRequired => false,
            ErrorKind::Other(_) => false,
            ErrorKind::Stopped => false,
            ErrorKind::Bitmap => false,
            ErrorKind::SyncError(_) => false,
            _ => true,
        }
    }

    /// The full display text: the kind's text, then the wrapped cause
    /// and the capture location, each "Unknown" when absent.
    pub fn display_string(&self) -> (r: String)
        ensures
            r@ == spec_kind_text(self.spec_kind()) + " \n Cause: "@ + (match self.spec_cause() {
                Some(c) => c@,
                None => "Unknown"@,
            }) + " \n Backtrace: "@ + (match self.spec_location() {
                Some(l) => l@,
                None => "Unknown"@,
            }),
    {
        let mut t = self.kind.text();
        t.append(" \n Cause: ");
        match &self.cause {
            Some(c) => t.append(c.as_str()),
            None => t.append("Unknown"),
        }
        t.append(" \n Backtrace: ");
        match &self.location {
            Some(l) => t.append(l.as_str()),
            None => t.append("Unknown"),
        }
        t
    }
}

impl From<ErrorKind> for Error {
    /// Wrap a bare kind into an error with no source.
    fn from(kind: ErrorKind) -> (r: Error) {
        Error::new(kind)
    }
}

impl vstd::std_specs::convert::FromSpecImpl<ErrorKind> for Error {
    open spec fn obeys_from_spec() -> bool {
        true
    }

    open spec fn from_spec(kind: ErrorKind) -> Error {
        Error { kind, cause: None, location: None }
    }
}

} // verus!
