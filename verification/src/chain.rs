//! The read view of the chain the query handlers resolve against:
//! headers in height order, the unspent-output index, and stored block
//! bodies, together with the printable records the HTTP layer returns.
use vstd::prelude::*;
use crate::encoding::bytes_eq;

verus! {

/// The data of one block header, as the header MMR records it.
#[derive(Debug, Clone, Copy)]
pub struct BlockHeaderData {
    /// Protocol version of the block.
    pub version: u16,
    /// Height of this block since the genesis block (height 0).
    pub height: u64,
    /// Hash of the header.
    pub hash: crate::hash::Hash,
    /// Hash of the block previous to this in the chain.
    pub previous: crate::hash::Hash,
    /// Root hash of the header MMR at the previous header.
    pub prev_root: crate::hash::Hash,
    /// Merklish root of all the commitments in the output MMR.
    pub output_root: crate::hash::Hash,
    /// Merklish root of all range proofs in the range-proof MMR.
    pub range_proof_root: crate::hash::Hash,
    /// Merklish root of all transaction kernels in the kernel MMR.
    pub kernel_root: crate::hash::Hash,
    /// Size of the output MMR after applying this block.
    pub output_mmr_size: u64,
    /// Size of the kernel MMR after applying this block.
    pub kernel_mmr_size: u64,
    /// Timestamp at which the block was built, seconds since the epoch.
    pub timestamp: i64,
    /// Total accumulated difficulty since the genesis block.
    pub total_difficulty: u64,
    /// Difficulty scaling factor between the primary and the secondary
    /// proof-of-work family.
    pub secondary_scaling: u32,
    /// Nonce increment used to mine the block.
    pub nonce: u64,
    /// Graph size of the proof-of-work solution.
    pub edge_bits: u8,
}

/// Options for an output: a plain one or a coinbase one.
#[derive(Debug, Clone, Copy, PartialEq, Eq, Structural)]
pub enum OutputFeatures {
    /// A plain output.
    Plain,
    /// A coinbase output.
    Coinbase,
}

/// Options for a kernel's relation to block height.
#[derive(Debug, Clone, Copy, PartialEq, Eq, Structural)]
pub enum KernelFeatures {
    /// A plain kernel.
    Plain,
    /// A coinbase kernel.
    Coinbase,
    /// A kernel valid only from its lock height on.
    HeightLocked,
    /// A kernel whose excess may not repeat within its relative height.
    NoRecentDuplicate,
}

/// One row of the unspent-output index: where an unspent commitment
/// sits in the chain.
#[derive(Debug)]
pub struct OutputInfo {
    /// The Pedersen commitment identifying the output, 33 bytes.
    pub commit: Vec<u8>,
    /// Height of the block the output was created in.
    pub height: u64,
    /// Position of the output in the output MMR.
    pub mmr_position: u64,
}

/// One output as a stored block body carries it.
#[derive(Debug)]
pub struct OutputData {
    /// Plain or coinbase.
    pub features: OutputFeatures,
    /// The Pedersen commitment identifying the output, 33 bytes.
    pub commit: Vec<u8>,
    /// The range proof of the committed value.
    pub proof: Vec<u8>,
}

/// One kernel as a stored block body carries it.
#[derive(Debug)]
pub struct KernelData {
    /// The kind of the kernel.
    pub features: KernelFeatures,
    /// Fee the kernel commits to.
    pub fee: u64,
    /// Lock height or relative height, meaningful for the height-locked
    /// and no-recent-duplicate kinds; zero otherwise.
    pub lock_height: u64,
    /// The kernel's excess commitment, 33 bytes.
    pub excess: Vec<u8>,
    /// The kernel's signature over its excess, 64 bytes.
    pub excess_sig: Vec<u8>,
}

/// One stored block body.
#[derive(Debug)]
pub struct BlockData {
    /// The block's header.
    pub header: BlockHeaderData,
    /// The commitments the block spends.
    pub inputs: Vec<Vec<u8>>,
    /// The outputs the block creates.
    pub outputs: Vec<OutputData>,
    /// The block's kernels.
    pub kernels: Vec<KernelData>,
}

/// The chain as the read queries see it: a consistent snapshot of the
/// header index, the unspent-output index, and the block store.
#[derive(Debug)]
pub struct Chain {
    /// All accepted headers on the current chain, indexed by height.
    pub headers: Vec<BlockHeaderData>,
    /// The unspent outputs, each pointing at the height it was created.
    pub outputs: Vec<OutputInfo>,
    /// The stored block bodies.
    pub blocks: Vec<BlockData>,
}

/// The first header whose hash is `h`, scanning in height order.
pub open spec fn spec_find_header(s: Seq<BlockHeaderData>, h: Seq<u8>) -> Option<BlockHeaderData>
    decreases s.len(),
{
    if s.len() == 0 {
        None
    } else if s[0].hash@ == h {
        Some(s[0])
    } else {
        spec_find_header(s.drop_first(), h)
    }
}

/// The first unspent-output row whose commitment is `c`.
pub open spec fn spec_find_output(s: Seq<OutputInfo>, c: Seq<u8>) -> Option<OutputInfo>
    decreases s.len(),
{
    if s.len() == 0 {
        None
    } else if s[0].commit@ == c {
        Some(s[0])
    } else {
        spec_find_output(s.drop_first(), c)
    }
}

/// The first stored block whose header hash is `h`.
pub open spec fn spec_find_block(s: Seq<BlockData>, h: Seq<u8>) -> Option<int>
    decreases s.len(),
{
    if s.len() == 0 {
        None
    } else if s[0].header.hash@ == h {
        Some(0)
    } else {
        match spec_find_block(s.drop_first(), h) {
            Some(i) => Some(i + 1),
            None => None,
        }
    }
}

/// A found unspent row is one of the index's rows.
pub proof fn lemma_find_output_mem(s: Seq<OutputInfo>, c: Seq<u8>)
    requires
        spec_find_output(s, c) is Some,
    ensures
        exists|i: int| 0 <= i < s.len() && s[i] == spec_find_output(s, c)->Some_0,
    decreases s.len(),
{
    if s.len() > 0 && s[0].commit@ != c {
        lemma_find_output_mem(s.drop_first(), c);
        let j = choose|i: int|
            0 <= i < s.drop_first().len() && s.drop_first()[i] == spec_find_output(
                s.drop_first(),
                c,
            )->Some_0;
        assert(s[j + 1] == spec_find_output(s, c)->Some_0);
    }
}

/// A found block index is a position inside the store.
pub proof fn lemma_find_block_bounds(s: Seq<BlockData>, h: Seq<u8>)
    requires
        spec_find_block(s, h) is Some,
    ensures
        0 <= spec_find_block(s, h)->Some_0 < s.len(),
        s[spec_find_block(s, h)->Some_0].header.hash@ == h,
    decreases s.len(),
{
    if s.len() > 0 && s[0].header.hash@ != h {
        lemma_find_block_bounds(s.drop_first(), h);
    }
}

impl Chain {
    /// A consistent view: headers stand at their height, and the
    /// unspent index points into the headers.
    pub open spec fn wf(&self) -> bool {
        &&& forall|i: int|
            0 <= i < self.headers@.len() ==> #[trigger] self.headers@[i].height == i
        &&& forall|i: int|
            0 <= i < self.outputs@.len() ==> #[trigger] self.outputs@[i].height
                < self.headers@.len()
    }

    /// Decide well-formedness, so that an unverified caller can test it
    /// before calling the functions that require it.
    pub fn check_consistency(&self) -> (r: bool)
        ensures
            r == self.wf(),
    {
        let mut i: usize = 0;
        while i < self.headers.len()
            invariant
                i <= self.headers@.len(),
                forall|j: int| 0 <= j < i ==> #[trigger] self.headers@[j].height == j,
            decreases self.headers@.len() - i,
        {
            if self.headers[i].height != i as u64 {
                return false;
            }
            i = i + 1;
        }
        let mut k: usize = 0;
        while k < self.outputs.len()
            invariant
                k <= self.outputs@.len(),
                forall|j: int| 0 <= j < i ==> #[trigger] self.headers@[j].height == j,
                i == self.headers@.len(),
                forall|j: int|
                    0 <= j < k ==> #[trigger] self.outputs@[j].height < self.headers@.len(),
            decreases self.outputs@.len() - k,
        {
            if self.outputs[k].height >= self.headers.len() as u64 {
                return false;
            }
            k = k + 1;
        }
        true
    }

    /// The header at the given height, `None` above the tip.
    pub fn get_header_by_height(&self, height: u64) -> (r: Option<&BlockHeaderData>)
        ensures
            height < self.headers@.len() ==> r == Some(&self.headers@[height as int]),
            height >= self.headers@.len() ==> r is None,
    {
        if height < self.headers.len() as u64 {
            Some(&self.headers[height as usize])
        } else {
            None
        }
    }

    /// The header with the given hash, `None` when no accepted header
    /// has it.
    pub fn get_block_header(&self, h: &crate::hash::Hash) -> (r: Option<&BlockHeaderData>)
        ensures
            match r {
                Some(hdr) => spec_find_header(self.headers@, h@) == Some(*hdr),
                None => spec_find_header(self.headers@, h@) is None,
            },
    {
        proof {
            assert(self.headers@.skip(0) =~= self.headers@);
        }
        let mut i: usize = 0;
        while i < self.headers.len()
            invariant
                i <= self.headers@.len(),
                spec_find_header(self.headers@, h@) == spec_find_header(
                    self.headers@.skip(i as int),
                    h@,
                ),
            decreases self.headers@.len() - i,
        {
            proof {
                assert(self.headers@.skip(i as int)[0] == self.headers@[i as int]);
                assert(self.headers@.skip(i as int).drop_first() =~= self.headers@.skip(
                    i as int + 1,
                ));
            }
            if self.headers[i].hash == *h {
                return Some(&self.headers[i]);
            }
            i = i + 1;
        }
        proof {
            assert(self.headers@.skip(self.headers@.len() as int) =~= Seq::<
                BlockHeaderData,
            >::empty());
        }
        None
    }

    /// The unspent-output row for the given commitment, `None` when the
    /// commitment is unknown or spent.
    pub fn get_unspent(&self, commit: &Vec<u8>) -> (r: Option<&OutputInfo>)
        ensures
            match r {
                Some(o) => spec_find_output(self.outputs@, commit@) == Some(*o),
                None => spec_find_output(self.outputs@, commit@) is None,
            },
    {
        proof {
            assert(self.outputs@.skip(0) =~= self.outputs@);
        }
        let mut i: usize = 0;
        while i < self.outputs.len()
            invariant
                i <= self.outputs@.len(),
                spec_find_output(self.outputs@, commit@) == spec_find_output(
                    self.outputs@.skip(i as int),
                    commit@,
                ),
            decreases self.outputs@.len() - i,
        {
            proof {
                assert(self.outputs@.skip(i as int)[0] == self.outputs@[i as int]);
                assert(self.outputs@.skip(i as int).drop_first() =~= self.outputs@.skip(
                    i as int + 1,
                ));
            }
            if bytes_eq(self.outputs[i].commit.as_slice(), commit.as_slice()) {
                return Some(&self.outputs[i]);
            }
            i = i + 1;
        }
        proof {
            assert(self.outputs@.skip(self.outputs@.len() as int) =~= Seq::<OutputInfo>::empty());
        }
        None
    }

    /// The header of the block that created the given unspent
    /// commitment.
    pub fn get_header_for_output(&self, commit: &Vec<u8>) -> (r: Option<&BlockHeaderData>)
        requires
            self.wf(),
        ensures
            match r {
                Some(hdr) => {
                    &&& spec_find_output(self.outputs@, commit@) is Some
                    &&& *hdr == self.headers@[spec_find_output(
                        self.outputs@,
                        commit@,
                    )->Some_0.height as int]
                },
                None => spec_find_output(self.outputs@, commit@) is None,
            },
    {
        match self.get_unspent(commit) {
            Some(o) => {
                proof {
                    lemma_find_output_mem(self.outputs@, commit@);
                    let i = choose|i: int|
                        0 <= i < self.outputs@.len() && self.outputs@[i] == spec_find_output(
                            self.outputs@,
                            commit@,
                        )->Some_0;
                    assert(self.outputs@[i].height < self.headers@.len());
                }
                let height = o.height;
                let n: usize = self.headers.len();
                Some(&self.headers[height as usize])
            },
            None => None,
        }
    }

    /// The stored block whose header hash is `h`.
    pub fn get_block(&self, h: &crate::hash::Hash) -> (r: Option<&BlockData>)
        ensures
            match r {
                Some(b) => {
                    &&& spec_find_block(self.blocks@, h@) is Some
                    &&& *b == self.blocks@[spec_find_block(self.blocks@, h@)->Some_0]
                },
                None => spec_find_block(self.blocks@, h@) is None,
            },
    {
        proof {
            assert(self.blocks@.skip(0) =~= self.blocks@);
            if spec_find_block(self.blocks@, h@) is Some {
                lemma_find_block_bounds(self.blocks@, h@);
            }
        }
        let mut i: usize = 0;
        while i < self.blocks.len()
            invariant
                i <= self.blocks@.len(),
                match spec_find_block(self.blocks@, h@) {
                    Some(j) => j >= i && spec_find_block(self.blocks@.skip(i as int), h@) == Some(
                        j - i,
                    ),
                    None => spec_find_block(self.blocks@.skip(i as int), h@) is None,
                },
            decreases self.blocks@.len() - i,
        {
            proof {
                assert(self.blocks@.skip(i as int)[0] == self.blocks@[i as int]);
                assert(self.blocks@.skip(i as int).drop_first() =~= self.blocks@.skip(i as int + 1));
                if spec_find_block(self.blocks@.skip(i as int + 1), h@) is Some {
                    lemma_find_block_bounds(self.blocks@.skip(i as int + 1), h@);
                }
            }
            if self.blocks[i].header.hash == *h {
                return Some(&self.blocks[i]);
            }
            i = i + 1;
        }
        proof {
            assert(self.blocks@.skip(self.blocks@.len() as int) =~= Seq::<BlockData>::empty());
        }
        None
    }
}

} // verus!
