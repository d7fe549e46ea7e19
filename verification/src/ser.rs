//! Canonical byte encoding of the block header record: fixed-width
//! big-endian fields in a fixed order, with the round-trip law that a
//! decoded encoding is the header that was encoded.
use vstd::prelude::*;
use crate::chain::BlockHeaderData;

verus! {

/// The big-endian bytes of a 16-bit number.
pub open spec fn be_u16(v: u16) -> Seq<u8> {
    seq![(v >> 8) as u8, v as u8]
}

/// The big-endian bytes of a 32-bit number.
pub open spec fn be_u32(v: u32) -> Seq<u8> {
    seq![(v >> 24) as u8, (v >> 16) as u8, (v >> 8) as u8, v as u8]
}

/// The big-endian bytes of a 64-bit number.
pub open spec fn be_u64(v: u64) -> Seq<u8> {
    seq![
        (v >> 56) as u8,
        (v >> 48) as u8,
        (v >> 40) as u8,
        (v >> 32) as u8,
        (v >> 24) as u8,
        (v >> 16) as u8,
        (v >> 8) as u8,
        v as u8,
    ]
}

/// The 16-bit number two bytes spell, most significant first.
pub open spec fn u16_of_be(b0: u8, b1: u8) -> u16 {
    (((b0 as u16) << 8) | (b1 as u16)) as u16
}

/// The 32-bit number four bytes spell, most significant first.
pub open spec fn u32_of_be(b0: u8, b1: u8, b2: u8, b3: u8) -> u32 {
    (((b0 as u32) << 24) | ((b1 as u32) << 16) | ((b2 as u32) << 8) | (b3 as u32)) as u32
}

/// The 64-bit number eight bytes spell, most significant first.
pub open spec fn u64_of_be(s: Seq<u8>) -> u64 {
    (((s[0] as u64) << 56) | ((s[1] as u64) << 48) | ((s[2] as u64) << 40) | ((s[3] as u64) << 32)
        | ((s[4] as u64) << 24) | ((s[5] as u64) << 16) | ((s[6] as u64) << 8) | (
    s[7] as u64)) as u64
}

proof fn lemma_be_u16_round_trip(v: u16)
    ensures
        u16_of_be(be_u16(v)[0], be_u16(v)[1]) == v,
{
    assert(((((v >> 8) as u8 as u16) << 8) | ((v as u8) as u16)) == v) by (bit_vector);
}

proof fn lemma_be_u32_round_trip(v: u32)
    ensures
        u32_of_be(be_u32(v)[0], be_u32(v)[1], be_u32(v)[2], be_u32(v)[3]) == v,
{
    assert(((((v >> 24) as u8 as u32) << 24) | (((v >> 16) as u8 as u32) << 16) | (((v
        >> 8) as u8 as u32) << 8) | ((v as u8) as u32)) == v) by (bit_vector);
}

proof fn lemma_be_u64_round_trip(v: u64)
    ensures
        u64_of_be(be_u64(v)) == v,
{
    assert(((((v >> 56) as u8 as u64) << 56) | (((v >> 48) as u8 as u64) << 48) | (((v
        >> 40) as u8 as u64) << 40) | (((v >> 32) as u8 as u64) << 32) | (((v
        >> 24) as u8 as u64) << 24) | (((v >> 16) as u8 as u64) << 16) | (((v
        >> 8) as u8 as u64) << 8) | ((v as u8) as u64)) == v) by (bit_vector);
}

/// How many bytes a header record encodes to.
pub const HEADER_ENCODED_LEN: usize = 247;

/// The canonical encoding of a header record: version, height,
/// timestamp, then the six hashes (own, previous, previous root, output
/// root, range-proof root, kernel root), the two MMR sizes, the total
/// difficulty, the secondary scaling, the nonce and the edge bits, each
/// fixed-width big-endian, in that order.
pub open spec fn spec_encode_header(h: BlockHeaderData) -> Seq<u8> {
    be_u16(h.version) + be_u64(h.height) + be_u64(h.timestamp as u64) + h.hash@ + h.previous@
        + h.prev_root@ + h.output_root@ + h.range_proof_root@ + h.kernel_root@ + be_u64(
        h.output_mmr_size,
    ) + be_u64(h.kernel_mmr_size) + be_u64(h.total_difficulty) + be_u32(h.secondary_scaling)
        + be_u64(h.nonce) + seq![h.edge_bits]
}

/// Whether the header `h` reads each of its fields off the canonical
/// byte string `s`.
pub open spec fn decoded_matches(h: BlockHeaderData, s: Seq<u8>) -> bool {
    &&& s.len() == HEADER_ENCODED_LEN
    &&& h.version == u16_of_be(s[0], s[1])
    &&& h.height == u64_of_be(s.subrange(2, 10))
    &&& h.timestamp == u64_of_be(s.subrange(10, 18)) as i64
    &&& h.hash@ == s.subrange(18, 50)
    &&& h.previous@ == s.subrange(50, 82)
    &&& h.prev_root@ == s.subrange(82, 114)
    &&& h.output_root@ == s.subrange(114, 146)
    &&& h.range_proof_root@ == s.subrange(146, 178)
    &&& h.kernel_root@ == s.subrange(178, 210)
    &&& h.output_mmr_size == u64_of_be(s.subrange(210, 218))
    &&& h.kernel_mmr_size == u64_of_be(s.subrange(218, 226))
    &&& h.total_difficulty == u64_of_be(s.subrange(226, 234))
    &&& h.secondary_scaling == u32_of_be(s[234], s[235], s[236], s[237])
    &&& h.nonce == u64_of_be(s.subrange(238, 246))
    &&& h.edge_bits == s[246]
}

fn push_be_u16(out: &mut Vec<u8>, v: u16)
    ensures
        final(out)@ == old(out)@ + be_u16(v),
{
    out.push((v >> 8) as u8);
    out.push(v as u8);
    proof {
        assert(final(out)@ =~= old(out)@ + be_u16(v));
    }
}

fn push_be_u32(out: &mut Vec<u8>, v: u32)
    ensures
        final(out)@ == old(out)@ + be_u32(v),
{
    out.push((v >> 24) as u8);
    out.push((v >> 16) as u8);
    out.push((v >> 8) as u8);
    out.push(v as u8);
    proof {
        assert(final(out)@ =~= old(out)@ + be_u32(v));
    }
}

fn push_be_u64(out: &mut Vec<u8>, v: u64)
    ensures
        final(out)@ == old(out)@ + be_u64(v),
{
    out.push((v >> 56) as u8);
    out.push((v >> 48) as u8);
    out.push((v >> 40) as u8);
    out.push((v >> 32) as u8);
    out.push((v >> 24) as u8);
    out.push((v >> 16) as u8);
    out.push((v >> 8) as u8);
    out.push(v as u8);
    proof {
        assert(final(out)@ =~= old(out)@ + be_u64(v));
    }
}

fn push_bytes(out: &mut Vec<u8>, s: &[u8])
    ensures
        final(out)@ == old(out)@ + s@,
{
    let mut i: usize = 0;
    while i < s.len()
        invariant
            i <= s@.len(),
            out@ =~= old(out)@ + s@.take(i as int),
        decreases s@.len() - i,
    {
        out.push(s[i]);
        i = i + 1;
    }
    proof {
        assert(s@.take(s@.len() as int) =~= s@);
        assert(final(out)@ =~= old(out)@ + s@);
    }
}

/// Encode a header record canonically.
pub fn encode_header(h: &BlockHeaderData) -> (r: Vec<u8>)
    ensures
        r@ == spec_encode_header(*h),
        r@.len() == HEADER_ENCODED_LEN,
{
    let mut out: Vec<u8> = Vec::new();
    push_be_u16(&mut out, h.version);
    push_be_u64(&mut out, h.height);
    push_be_u64(&mut out, h.timestamp as u64);
    push_bytes(&mut out, h.hash.as_bytes());
    push_bytes(&mut out, h.previous.as_bytes());
    push_bytes(&mut out, h.prev_root.as_bytes());
    push_bytes(&mut out, h.output_root.as_bytes());
    push_bytes(&mut out, h.range_proof_root.as_bytes());
    push_bytes(&mut out, h.kernel_root.as_bytes());
    push_be_u64(&mut out, h.output_mmr_size);
    push_be_u64(&mut out, h.kernel_mmr_size);
    push_be_u64(&mut out, h.total_difficulty);
    push_be_u32(&mut out, h.secondary_scaling);
    push_be_u64(&mut out, h.nonce);
    out.push(h.edge_bits);
    proof {
        h.hash.lemma_len();
        h.previous.lemma_len();
        h.prev_root.lemma_len();
        h.output_root.lemma_len();
        h.range_proof_root.lemma_len();
        h.kernel_root.lemma_len();
        assert(out@ =~= spec_encode_header(*h));
    }
    out
}

fn read_be_u64(bytes: &Vec<u8>, at: usize) -> (r: u64)
    requires
        at + 8 <= bytes@.len(),
    ensures
        r == u64_of_be(bytes@.subrange(at as int, at as int + 8)),
{
    let n: usize = bytes.len();
    let r = ((bytes[at] as u64) << 56) | ((bytes[at + 1] as u64) << 48) | ((bytes[at + 2] as u64)
        << 40) | ((bytes[at + 3] as u64) << 32) | ((bytes[at + 4] as u64) << 24) | ((bytes[at
        + 5] as u64) << 16) | ((bytes[at + 6] as u64) << 8) | (bytes[at + 7] as u64);
    proof {
        let s = bytes@.subrange(at as int, at as int + 8);
        assert(s[0] == bytes@[at as int] && s[1] == bytes@[at as int + 1] && s[2] == bytes@[at as int
            + 2] && s[3] == bytes@[at as int + 3] && s[4] == bytes@[at as int + 4] && s[5]
            == bytes@[at as int + 5] && s[6] == bytes@[at as int + 6] && s[7] == bytes@[at as int
            + 7]);
    }
    r
}

fn read_hash(bytes: &Vec<u8>, at: usize) -> (r: crate::hash::Hash)
    requires
        at + 32 <= bytes@.len(),
    ensures
        r@ == bytes@.subrange(at as int, at as int + 32),
{
    let n: usize = bytes.len();
    let mut v: Vec<u8> = Vec::new();
    let mut i: usize = 0;
    while i < 32
        invariant
            i <= 32,
            n == bytes@.len(),
            at + 32 <= n,
            v@ =~= bytes@.subrange(at as int, at as int + i),
        decreases 32 - i,
    {
        v.push(bytes[at + i]);
        i = i + 1;
    }
    let r = crate::hash::Hash::from_vec(&v);
    proof {
        assert(r@ =~= bytes@.subrange(at as int, at as int + 32));
    }
    r
}

/// Decode a canonical header byte string; `None` exactly when the
/// length is wrong.
pub fn decode_header(bytes: &Vec<u8>) -> (r: Option<BlockHeaderData>)
    ensures
        r is Some <==> bytes@.len() == HEADER_ENCODED_LEN,
        r is Some ==> decoded_matches(r->Some_0, bytes@),
{
    if bytes.len() != HEADER_ENCODED_LEN {
        return None;
    }
    let version = ((bytes[0] as u16) << 8) | (bytes[1] as u16);
    let secondary_scaling = ((bytes[234] as u32) << 24) | ((bytes[235] as u32) << 16) | ((bytes[236]
        as u32) << 8) | (bytes[237] as u32);
    Some(
        BlockHeaderData {
            version,
            height: read_be_u64(bytes, 2),
            timestamp: read_be_u64(bytes, 10) as i64,
            hash: read_hash(bytes, 18),
            previous: read_hash(bytes, 50),
            prev_root: read_hash(bytes, 82),
            output_root: read_hash(bytes, 114),
            range_proof_root: read_hash(bytes, 146),
            kernel_root: read_hash(bytes, 178),
            output_mmr_size: read_be_u64(bytes, 210),
            kernel_mmr_size: read_be_u64(bytes, 218),
            total_difficulty: read_be_u64(bytes, 226),
            secondary_scaling,
            nonce: read_be_u64(bytes, 238),
            edge_bits: bytes[246],
        },
    )
}

/// The round-trip law for the header codec: decoding a canonical
/// encoding gives back exactly the header that was encoded.
#[verifier::rlimit(100)]
pub proof fn lemma_header_round_trip(h: BlockHeaderData, h2: BlockHeaderData)
    requires
        decoded_matches(h2, spec_encode_header(h)),
    ensures
        h2 == h,
{
    let s = spec_encode_header(h);
    assert(h.hash@.len() == 32 && h.previous@.len() == 32 && h.prev_root@.len() == 32
        && h.output_root@.len() == 32 && h.range_proof_root@.len() == 32 && h.kernel_root@.len()
        == 32) by {
        h.hash.lemma_len();
        h.previous.lemma_len();
        h.prev_root.lemma_len();
        h.output_root.lemma_len();
        h.range_proof_root.lemma_len();
        h.kernel_root.lemma_len();
    }
    assert(s[0] == be_u16(h.version)[0] && s[1] == be_u16(h.version)[1]);
    lemma_be_u16_round_trip(h.version);
    assert(s.subrange(2, 10) =~= be_u64(h.height));
    lemma_be_u64_round_trip(h.height);
    assert(s.subrange(10, 18) =~= be_u64(h.timestamp as u64));
    lemma_be_u64_round_trip(h.timestamp as u64);
    let t = h.timestamp;
    assert(((t as u64) as i64) == t) by (bit_vector);
    assert(s.subrange(18, 50) =~= h.hash@);
    assert(s.subrange(50, 82) =~= h.previous@);
    assert(s.subrange(82, 114) =~= h.prev_root@);
    assert(s.subrange(114, 146) =~= h.output_root@);
    assert(s.subrange(146, 178) =~= h.range_proof_root@);
    assert(s.subrange(178, 210) =~= h.kernel_root@);
    crate::hash::Hash::lemma_view_injective(h2.hash, h.hash);
    crate::hash::Hash::lemma_view_injective(h2.previous, h.previous);
    crate::hash::Hash::lemma_view_injective(h2.prev_root, h.prev_root);
    crate::hash::Hash::lemma_view_injective(h2.output_root, h.output_root);
    crate::hash::Hash::lemma_view_injective(h2.range_proof_root, h.range_proof_root);
    crate::hash::Hash::lemma_view_injective(h2.kernel_root, h.kernel_root);
    assert(s.subrange(210, 218) =~= be_u64(h.output_mmr_size));
    lemma_be_u64_round_trip(h.output_mmr_size);
    assert(s.subrange(218, 226) =~= be_u64(h.kernel_mmr_size));
    lemma_be_u64_round_trip(h.kernel_mmr_size);
    assert(s.subrange(226, 234) =~= be_u64(h.total_difficulty));
    lemma_be_u64_round_trip(h.total_difficulty);
    assert(s[234] == be_u32(h.secondary_scaling)[0] && s[235] == be_u32(h.secondary_scaling)[1]
        && s[236] == be_u32(h.secondary_scaling)[2] && s[237] == be_u32(h.secondary_scaling)[3]);
    lemma_be_u32_round_trip(h.secondary_scaling);
    assert(s.subrange(238, 246) =~= be_u64(h.nonce));
    lemma_be_u64_round_trip(h.nonce);
    assert(s[246] == h.edge_bits);
}

} // verus!
