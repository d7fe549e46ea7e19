use chain_core::chain::{
    BlockData, BlockHeaderData, Chain, KernelData, KernelFeatures, OutputData, OutputFeatures,
    OutputInfo,
};
use chain_core::handlers::{ApiError, BlockHandler, BlockResponse, HeaderHandler};

fn header(height: u64, hash_byte: u8, prev_byte: u8) -> BlockHeaderData {
    BlockHeaderData {
        version: 1,
        height,
        hash: chain_core::hash::Hash::from_vec(&vec![hash_byte; 32]),
        previous: chain_core::hash::Hash::from_vec(&vec![prev_byte; 32]),
        prev_root: chain_core::hash::Hash::zero(),
        output_root: chain_core::hash::Hash::from_vec(&vec![0x0f; 32]),
        range_proof_root: chain_core::hash::Hash::from_vec(&vec![0x1f; 32]),
        kernel_root: chain_core::hash::Hash::from_vec(&vec![0x2f; 32]),
        output_mmr_size: height + 1,
        kernel_mmr_size: height + 1,
        timestamp: 1000 + 60 * height as i64,
        total_difficulty: (height + 1) * 10,
        secondary_scaling: 1856,
        nonce: 42 + height,
        edge_bits: 31,
    }
}

fn test_chain() -> Chain {
    // Genesis and one block holding one coinbase output and kernel.
    let genesis = header(0, 0x01, 0x00);
    let b1 = header(1, 0x02, 0x01);
    let commit = vec![0x09u8; 33];
    let b1_body = BlockData {
        header: header(1, 0x02, 0x01),
        inputs: vec![],
        outputs: vec![OutputData {
            features: OutputFeatures::Coinbase,
            commit: commit.clone(),
            proof: vec![0x77; 4],
        }],
        kernels: vec![KernelData {
            features: KernelFeatures::Coinbase,
            fee: 0,
            lock_height: 0,
            excess: vec![0x08; 33],
            excess_sig: vec![0x07; 64],
        }],
    };
    Chain {
        headers: vec![genesis, b1],
        outputs: vec![OutputInfo { commit, height: 1, mmr_position: 2 }],
        blocks: vec![b1_body],
    }
}

#[test]
fn header_by_height_happy_path() {
    // Genesis plus one accepted block: the header query for height 1
    // answers with that block's hash.
    let handler = HeaderHandler { chain: test_chain() };
    let p = handler.get_header("1".to_string()).unwrap();
    assert_eq!(p.hash, "02".repeat(32));
    assert_eq!(p.height, 1);
    assert_eq!(p.previous, "01".repeat(32));
    assert_eq!(p.total_difficulty, 20);
}

#[test]
fn header_by_hash() {
    let handler = HeaderHandler { chain: test_chain() };
    let p = handler.get_header("01".repeat(32)).unwrap();
    assert_eq!(p.height, 0);
    // Uppercase hex resolves too.
    let p2 = handler.get_header("02".repeat(32).to_uppercase()).unwrap();
    assert_eq!(p2.height, 1);
}

#[test]
fn header_by_output_commit() {
    let handler = HeaderHandler { chain: test_chain() };
    let p = handler.get_header("09".repeat(33)).unwrap();
    assert_eq!(p.height, 1);
    let direct = handler.get_header_for_output(&"09".repeat(33)).unwrap();
    assert_eq!(direct.height, 1);
    // A well-formed but unknown commitment is not found; a malformed
    // one is an argument error.
    assert!(matches!(
        handler.get_header_for_output(&"0a".repeat(33)),
        Err(ApiError::NotFound(_))
    ));
    assert!(matches!(
        handler.get_header_for_output(&"zz".to_string()),
        Err(ApiError::Argument(_))
    ));
}

#[test]
fn header_query_errors() {
    let handler = HeaderHandler { chain: test_chain() };
    // Height beyond the tip.
    assert!(matches!(handler.get_header("7".to_string()), Err(ApiError::NotFound(_))));
    // Unknown hash.
    assert!(matches!(handler.get_header("ee".repeat(32)), Err(ApiError::NotFound(_))));
    // Neither commit, height nor 64-hex hash.
    assert!(matches!(handler.get_header("xyz".to_string()), Err(ApiError::Argument(_))));
    assert!(matches!(handler.get_header("abcd".to_string()), Err(ApiError::Argument(_))));
}

#[test]
fn header_v2_lookup() {
    let handler = HeaderHandler { chain: test_chain() };
    let h = chain_core::hash::Hash::from_vec(&vec![0x02; 32]);
    assert_eq!(handler.get_header_v2(&h).unwrap().height, 1);
    let missing = chain_core::hash::Hash::from_vec(&vec![0xee; 32]);
    assert!(matches!(handler.get_header_v2(&missing), Err(ApiError::NotFound(_))));
}

#[test]
fn parse_inputs_exactly_one_argument() {
    let handler = HeaderHandler { chain: test_chain() };
    let b1_hash = chain_core::hash::Hash::from_vec(&vec![0x02; 32]);
    // One argument resolves.
    assert!(handler.parse_inputs(Some(1), None, None).unwrap() == b1_hash);
    assert!(handler.parse_inputs(None, Some(b1_hash.clone()), None).unwrap() == b1_hash);
    assert!(handler.parse_inputs(None, None, Some("09".repeat(33))).unwrap() == b1_hash);
    // Zero or more than one argument is refused.
    assert!(matches!(handler.parse_inputs(None, None, None), Err(ApiError::Argument(_))));
    assert!(matches!(
        handler.parse_inputs(Some(1), Some(b1_hash.clone()), None),
        Err(ApiError::Argument(_))
    ));
    // A height beyond the tip or an unknown commit is not found.
    assert!(matches!(handler.parse_inputs(Some(9), None, None), Err(ApiError::NotFound(_))));
    assert!(matches!(
        handler.parse_inputs(None, None, Some("0a".repeat(33))),
        Err(ApiError::NotFound(_))
    ));
    // The block handler resolves the same way.
    let bh = BlockHandler { chain: test_chain() };
    assert!(bh.parse_inputs(Some(1), None, None).unwrap() == b1_hash);
}

#[test]
fn block_lookup_with_flags() {
    let handler = BlockHandler { chain: test_chain() };
    let h = chain_core::hash::Hash::from_vec(&vec![0x02; 32]);
    let full = handler.get_block(&h, true, true).unwrap();
    assert_eq!(full.header.height, 1);
    assert_eq!(full.outputs.len(), 1);
    assert_eq!(full.outputs[0].commit, "09".repeat(33));
    assert_eq!(full.outputs[0].proof.as_deref(), Some("77777777"));
    assert!(!full.outputs[0].spent);
    assert_eq!(full.outputs[0].mmr_index, Some(2));
    assert_eq!(full.kernels.len(), 1);
    assert_eq!(full.kernels[0].excess, "08".repeat(33));
    let bare = handler.get_block(&h, false, false).unwrap();
    assert!(bare.outputs[0].proof.is_none());
    assert!(bare.outputs[0].mmr_index.is_none());
    let missing = chain_core::hash::Hash::from_vec(&vec![0xee; 32]);
    assert!(matches!(handler.get_block(&missing, false, false), Err(ApiError::NotFound(_))));
}

#[test]
fn compact_block_omits_proofs() {
    let handler = BlockHandler { chain: test_chain() };
    let h = chain_core::hash::Hash::from_vec(&vec![0x02; 32]);
    let compact = handler.get_compact_block(&h).unwrap();
    assert_eq!(compact.header.height, 1);
    assert_eq!(compact.out_full.len(), 1);
    assert!(compact.out_full[0].proof.is_none());
    assert_eq!(compact.kern_full.len(), 1);
}

#[test]
fn block_parse_input() {
    let handler = BlockHandler { chain: test_chain() };
    let b1_hash = chain_core::hash::Hash::from_vec(&vec![0x02; 32]);
    assert!(handler.parse_input("1".to_string()).unwrap() == b1_hash);
    // A 64-hex string stands for itself, without a lookup.
    let other = "ab".repeat(32);
    assert!(handler.parse_input(other.clone()).unwrap() == chain_core::hash::Hash::from_vec(&vec![0xab; 32]));
    assert!(matches!(handler.parse_input("5".to_string()), Err(ApiError::NotFound(_))));
    assert!(matches!(handler.parse_input("nope".to_string()), Err(ApiError::Argument(_))));
}

#[test]
fn block_get_with_query_parameters() {
    let handler = BlockHandler { chain: test_chain() };
    // No query: the full block with Merkle positions, without proofs.
    match handler.handle_get("1".to_string(), None).unwrap() {
        BlockResponse::Full(b) => {
            assert!(b.outputs[0].proof.is_none());
            assert_eq!(b.outputs[0].mmr_index, Some(2));
        },
        BlockResponse::Compact(_) => panic!("expected the full block"),
    }
    // The compact flag switches the form.
    match handler.handle_get("1".to_string(), Some("compact")).unwrap() {
        BlockResponse::Compact(b) => assert_eq!(b.header.height, 1),
        BlockResponse::Full(_) => panic!("expected the compact block"),
    }
    // Proofs on, Merkle positions off.
    match handler.handle_get("1".to_string(), Some("include_proof&no_merkle_proof")).unwrap() {
        BlockResponse::Full(b) => {
            assert_eq!(b.outputs[0].proof.as_deref(), Some("77777777"));
            assert!(b.outputs[0].mmr_index.is_none());
        },
        BlockResponse::Compact(_) => panic!("expected the full block"),
    }
    // An unknown parameter is an argument error.
    assert!(matches!(
        handler.handle_get("1".to_string(), Some("verbose")),
        Err(ApiError::Argument(_))
    ));
    // A bad path element fails before the query is looked at.
    assert!(matches!(
        handler.handle_get("zz".to_string(), Some("compact")),
        Err(ApiError::Argument(_))
    ));
    // A height beyond the tip is not found.
    assert!(matches!(
        handler.handle_get("9".to_string(), None),
        Err(ApiError::NotFound(_))
    ));
}
