//! Printable records the read API returns: headers, outputs, kernels
//! and blocks with every binary field rendered as lowercase hex.
use vstd::prelude::*;
use crate::chain::{
    BlockData, BlockHeaderData, Chain, KernelData, KernelFeatures, OutputData, OutputFeatures,
    spec_find_output,
};
use crate::encoding::{hex_of, to_hex};

verus! {

/// A block header in printable form.
#[derive(Debug)]
pub struct BlockHeaderPrintable {
    /// Hash of the header, in hex.
    pub hash: String,
    /// Protocol version of the block.
    pub version: u16,
    /// Height of the block.
    pub height: u64,
    /// Hash of the previous header, in hex.
    pub previous: String,
    /// Root of the header MMR at the previous header, in hex.
    pub prev_root: String,
    /// Root of the output MMR, in hex.
    pub output_root: String,
    /// Root of the range-proof MMR, in hex.
    pub range_proof_root: String,
    /// Root of the kernel MMR, in hex.
    pub kernel_root: String,
    /// Size of the output MMR after this block.
    pub output_mmr_size: u64,
    /// Size of the kernel MMR after this block.
    pub kernel_mmr_size: u64,
    /// Timestamp of the block, seconds since the epoch.
    pub timestamp: i64,
    /// Total accumulated difficulty.
    pub total_difficulty: u64,
    /// Secondary scaling factor.
    pub secondary_scaling: u32,
    /// Mining nonce.
    pub nonce: u64,
    /// Graph size of the proof-of-work solution.
    pub edge_bits: u8,
}

/// Whether `p` prints exactly the header `h`.
pub open spec fn matches_header_printable(p: BlockHeaderPrintable, h: BlockHeaderData) -> bool {
    &&& p.hash@ == hex_of(h.hash@)
    &&& p.version == h.version
    &&& p.height == h.height
    &&& p.previous@ == hex_of(h.previous@)
    &&& p.prev_root@ == hex_of(h.prev_root@)
    &&& p.output_root@ == hex_of(h.output_root@)
    &&& p.range_proof_root@ == hex_of(h.range_proof_root@)
    &&& p.kernel_root@ == hex_of(h.kernel_root@)
    &&& p.output_mmr_size == h.output_mmr_size
    &&& p.kernel_mmr_size == h.kernel_mmr_size
    &&& p.timestamp == h.timestamp
    &&& p.total_difficulty == h.total_difficulty
    &&& p.secondary_scaling == h.secondary_scaling
    &&& p.nonce == h.nonce
    &&& p.edge_bits == h.edge_bits
}

impl BlockHeaderPrintable {
    /// Print a header: every hash field rendered as hex, every number
    /// carried over.
    pub fn from_header(header: &BlockHeaderData) -> (r: BlockHeaderPrintable)
        ensures
            matches_header_printable(r, *header),
    {
        BlockHeaderPrintable {
            hash: header.hash.to_hex(),
            version: header.version,
            height: header.height,
            previous: header.previous.to_hex(),
            prev_root: header.prev_root.to_hex(),
            output_root: header.output_root.to_hex(),
            range_proof_root: header.range_proof_root.to_hex(),
            kernel_root: header.kernel_root.to_hex(),
            output_mmr_size: header.output_mmr_size,
            kernel_mmr_size: header.kernel_mmr_size,
            timestamp: header.timestamp,
            total_difficulty: header.total_difficulty,
            secondary_scaling: header.secondary_scaling,
            nonce: header.nonce,
            edge_bits: header.edge_bits,
        }
    }
}

/// An output in printable form.
#[derive(Debug)]
pub struct OutputPrintable {
    /// Plain or coinbase.
    pub output_type: OutputFeatures,
    /// The commitment, in hex.
    pub commit: String,
    /// Whether the output has been spent.
    pub spent: bool,
    /// The range proof in hex, included on request.
    pub proof: Option<String>,
    /// Position in the output MMR while the output is unspent, tying it
    /// to the tip's output root; included on request.
    pub mmr_index: Option<u64>,
}

/// Whether `p` prints exactly the output `o` against the unspent index
/// of `chain`, under the two inclusion flags.
pub open spec fn matches_output_printable(
    p: OutputPrintable,
    o: OutputData,
    chain: Chain,
    include_proof: bool,
    include_merkle_proof: bool,
) -> bool {
    let found = spec_find_output(chain.outputs@, o.commit@);
    &&& p.output_type == o.features
    &&& p.commit@ == hex_of(o.commit@)
    &&& p.spent == (found is None)
    &&& (if include_proof {
        p.proof is Some && p.proof->Some_0@ == hex_of(o.proof@)
    } else {
        p.proof is None
    })
    &&& (if include_merkle_proof && found is Some {
        p.mmr_index == Some(found->Some_0.mmr_position)
    } else {
        p.mmr_index is None
    })
}

impl OutputPrintable {
    /// Print an output, marking whether it is still unspent and, on
    /// request, carrying its range proof and its output-MMR position.
    pub fn from_output(
        output: &OutputData,
        chain: &Chain,
        include_proof: bool,
        include_merkle_proof: bool,
    ) -> (r: OutputPrintable)
        ensures
            matches_output_printable(r, *output, *chain, include_proof, include_merkle_proof),
    {
        let found = chain.get_unspent(&output.commit);
        let spent = found.is_none();
        let mmr_index: Option<u64> = if include_merkle_proof {
            match found {
                Some(info) => Some(info.mmr_position),
                None => None,
            }
        } else {
            None
        };
        let proof: Option<String> = if include_proof {
            Some(to_hex(output.proof.as_slice()))
        } else {
            None
        };
        OutputPrintable {
            output_type: output.features,
            commit: to_hex(output.commit.as_slice()),
            spent,
            proof,
            mmr_index,
        }
    }
}

/// A kernel in printable form.
#[derive(Debug)]
pub struct TxKernelPrintable {
    /// The kind of the kernel.
    pub features: KernelFeatures,
    /// Fee the kernel commits to.
    pub fee: u64,
    /// Lock height or relative height, zero for the plain kinds.
    pub lock_height: u64,
    /// The excess commitment, in hex.
    pub excess: String,
    /// The kernel signature, in hex.
    pub excess_sig: String,
}

/// Whether `p` prints exactly the kernel `k`.
pub open spec fn matches_kernel_printable(p: TxKernelPrintable, k: KernelData) -> bool {
    &&& p.features == k.features
    &&& p.fee == k.fee
    &&& p.lock_height == k.lock_height
    &&& p.excess@ == hex_of(k.excess@)
    &&& p.excess_sig@ == hex_of(k.excess_sig@)
}

impl TxKernelPrintable {
    /// Print a kernel.
    pub fn from_kernel(kernel: &KernelData) -> (r: TxKernelPrintable)
        ensures
            matches_kernel_printable(r, *kernel),
    {
        TxKernelPrintable {
            features: kernel.features,
            fee: kernel.fee,
            lock_height: kernel.lock_height,
            excess: to_hex(kernel.excess.as_slice()),
            excess_sig: to_hex(kernel.excess_sig.as_slice()),
        }
    }
}

/// A full block in printable form.
#[derive(Debug)]
pub struct BlockPrintable {
    /// The header.
    pub header: BlockHeaderPrintable,
    /// The commitments spent by the block, in hex.
    pub inputs: Vec<String>,
    /// The outputs created by the block.
    pub outputs: Vec<OutputPrintable>,
    /// The block's kernels.
    pub kernels: Vec<TxKernelPrintable>,
}

/// Whether `p` prints exactly the block `b`, under the two inclusion
/// flags.
pub open spec fn matches_block_printable(
    p: BlockPrintable,
    b: BlockData,
    chain: Chain,
    include_proof: bool,
    include_merkle_proof: bool,
) -> bool {
    &&& matches_header_printable(p.header, b.header)
    &&& p.inputs@.len() == b.inputs@.len()
    &&& forall|i: int|
        0 <= i < b.inputs@.len() ==> (#[trigger] p.inputs@[i])@ == hex_of(b.inputs@[i]@)
    &&& p.outputs@.len() == b.outputs@.len()
    &&& forall|i: int|
        0 <= i < b.outputs@.len() ==> matches_output_printable(
            #[trigger] p.outputs@[i],
            b.outputs@[i],
            chain,
            include_proof,
            include_merkle_proof,
        )
    &&& p.kernels@.len() == b.kernels@.len()
    &&& forall|i: int|
        0 <= i < b.kernels@.len() ==> matches_kernel_printable(
            #[trigger] p.kernels@[i],
            b.kernels@[i],
        )
}

impl BlockPrintable {
    /// Print a block: inputs as hex commitments, outputs with their
    /// spent state (and proofs and MMR positions on request), kernels
    /// with their excess in hex.
    pub fn from_block(
        block: &BlockData,
        chain: &Chain,
        include_proof: bool,
        include_merkle_proof: bool,
    ) -> (r: BlockPrintable)
        ensures
            matches_block_printable(r, *block, *chain, include_proof, include_merkle_proof),
    {
        let header = BlockHeaderPrintable::from_header(&block.header);
        let mut inputs: Vec<String> = Vec::new();
        let mut i: usize = 0;
        while i < block.inputs.len()
            invariant
                i <= block.inputs@.len(),
                inputs@.len() == i,
                forall|j: int|
                    0 <= j < i ==> (#[trigger] inputs@[j])@ == hex_of(block.inputs@[j]@),
            decreases block.inputs@.len() - i,
        {
            inputs.push(to_hex(block.inputs[i].as_slice()));
            i = i + 1;
        }
        let mut outputs: Vec<OutputPrintable> = Vec::new();
        let mut j: usize = 0;
        while j < block.outputs.len()
            invariant
                j <= block.outputs@.len(),
                outputs@.len() == j,
                forall|m: int|
                    0 <= m < j ==> matches_output_printable(
                        #[trigger] outputs@[m],
                        block.outputs@[m],
                        *chain,
                        include_proof,
                        include_merkle_proof,
                    ),
            decreases block.outputs@.len() - j,
        {
            outputs.push(
                OutputPrintable::from_output(
                    &block.outputs[j],
                    chain,
                    include_proof,
                    include_merkle_proof,
                ),
            );
            j = j + 1;
        }
        let mut kernels: Vec<TxKernelPrintable> = Vec::new();
        let mut k: usize = 0;
        while k < block.kernels.len()
            invariant
                k <= block.kernels@.len(),
                kernels@.len() == k,
                forall|m: int|
                    0 <= m < k ==> matches_kernel_printable(
                        #[trigger] kernels@[m],
                        block.kernels@[m],
                    ),
            decreases block.kernels@.len() - k,
        {
            kernels.push(TxKernelPrintable::from_kernel(&block.kernels[k]));
            k = k + 1;
        }
        BlockPrintable { header, inputs, outputs, kernels }
    }
}

/// A compact block in printable form: the header, the spent
/// commitments, and the outputs and kernels with range proofs omitted.
#[derive(Debug)]
pub struct CompactBlockPrintable {
    /// The header.
    pub header: BlockHeaderPrintable,
    /// The commitments spent by the block, in hex.
    pub inputs: Vec<String>,
    /// The outputs, without range proofs.
    pub out_full: Vec<OutputPrintable>,
    /// The kernels.
    pub kern_full: Vec<TxKernelPrintable>,
}

/// Whether `p` prints exactly the block `b` in compact form: like the
/// full form with proofs and MMR positions left out.
pub open spec fn matches_compact_printable(p: CompactBlockPrintable, b: BlockData, chain: Chain) -> bool {
    &&& matches_header_printable(p.header, b.header)
    &&& p.inputs@.len() == b.inputs@.len()
    &&& forall|i: int|
        0 <= i < b.inputs@.len() ==> (#[trigger] p.inputs@[i])@ == hex_of(b.inputs@[i]@)
    &&& p.out_full@.len() == b.outputs@.len()
    &&& forall|i: int|
        0 <= i < b.outputs@.len() ==> matches_output_printable(
            #[trigger] p.out_full@[i],
            b.outputs@[i],
            chain,
            false,
            false,
        )
    &&& p.kern_full@.len() == b.kernels@.len()
    &&& forall|i: int|
        0 <= i < b.kernels@.len() ==> matches_kernel_printable(
            #[trigger] p.kern_full@[i],
            b.kernels@[i],
        )
}

impl CompactBlockPrintable {
    /// Print a block compactly: range proofs and MMR positions are
    /// omitted.
    pub fn from_compact_block(block: &BlockData, chain: &Chain) -> (r: CompactBlockPrintable)
        ensures
            matches_compact_printable(r, *block, *chain),
    {
        let full = BlockPrintable::from_block(block, chain, false, false);
        CompactBlockPrintable {
            header: full.header,
            inputs: full.inputs,
            out_full: full.outputs,
            kern_full: full.kernels,
        }
    }
}

} // verus!
