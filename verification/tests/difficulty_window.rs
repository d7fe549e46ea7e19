use chain_core::consensus::{graph_weight, HeaderInfo, DIFFICULTY_ADJUST_WINDOW};
use chain_core::global::{difficulty_data_to_vector, set_local_chain_type, ChainTypes, GlobalState};

fn auto_state() -> GlobalState {
    let mut s = GlobalState::new();
    set_local_chain_type(&mut s, ChainTypes::AutomatedTesting);
    s
}

fn info(timestamp: i64, difficulty: u64) -> HeaderInfo {
    HeaderInfo { timestamp, difficulty, secondary_scaling: 1, is_secondary: true }
}

#[test]
fn difficulty_pad_genesis_only() {
    // With only genesis present the window is padded to W + 1 entries,
    // all at the genesis difficulty, timestamps spaced by the target
    // block time.
    let mut s = auto_state();
    let genesis = info(100000, 1);
    let v = difficulty_data_to_vector(&mut s, vec![genesis]);
    let w = DIFFICULTY_ADJUST_WINDOW as usize + 1;
    assert_eq!(v.len(), w);
    assert_eq!(v[w - 1], genesis);
    for j in 0..w {
        assert_eq!(v[j].difficulty, 1);
        assert_eq!(v[j].timestamp, 100000 - 60 * (w as i64 - 1 - j as i64));
        assert!(v[j].is_secondary);
    }
}

#[test]
fn difficulty_pad_two_entries_uses_observed_delta() {
    // With two real entries the synthetic ones step back by the gap
    // between them.
    let mut s = auto_state();
    let newer = info(1000, 7);
    let older = info(975, 5);
    let v = difficulty_data_to_vector(&mut s, vec![newer, older]);
    let w = DIFFICULTY_ADJUST_WINDOW as usize + 1;
    assert_eq!(v.len(), w);
    assert_eq!(v[w - 1], newer);
    assert_eq!(v[w - 2], older);
    // The most recent entry's difficulty is used for the padding.
    for j in 0..w - 2 {
        assert_eq!(v[j].difficulty, 7);
        assert_eq!(v[j].timestamp, 975 - 25 * (w as i64 - 2 - j as i64));
    }
}

#[test]
fn difficulty_full_window_is_reversed_unchanged() {
    let mut s = auto_state();
    let w = DIFFICULTY_ADJUST_WINDOW as usize + 1;
    let mut cursor: Vec<HeaderInfo> = Vec::new();
    for j in 0..w + 5 {
        cursor.push(info(10000 - 60 * j as i64, 100 + j as u64));
    }
    let v = difficulty_data_to_vector(&mut s, cursor.clone());
    assert_eq!(v.len(), w);
    // Only the first w entries are used, in reverse order.
    for j in 0..w {
        assert_eq!(v[j], cursor[w - 1 - j]);
    }
}

#[test]
fn difficulty_window_empty_cursor_emits_initial_difficulty() {
    // With no difficulty data at all the window holds W + 1 entries at
    // the chain's initial difficulty, timestamps spaced by the target
    // block time, anchored at the epoch.
    let mut s = GlobalState::new();
    set_local_chain_type(&mut s, ChainTypes::Mainnet);
    let v = difficulty_data_to_vector(&mut s, vec![]);
    let w = DIFFICULTY_ADJUST_WINDOW as usize + 1;
    assert_eq!(v.len(), w);
    for j in 0..w {
        assert_eq!(v[j].difficulty, 1000000);
        assert_eq!(v[j].timestamp, -60 * (w as i64 - 1 - j as i64));
        assert_eq!(v[j].secondary_scaling, 64 * 29);
        assert!(v[j].is_secondary);
    }
    // The testing chains pad at their own initial difficulty.
    let mut a = auto_state();
    let va = difficulty_data_to_vector(&mut a, vec![]);
    assert_eq!(va.len(), w);
    assert_eq!(va[0].difficulty, 1);
    assert_eq!(va[w - 1].timestamp, 0);
}

#[test]
fn difficulty_pad_saturates_at_signed_floor() {
    // Synthetic timestamps saturate instead of wrapping.
    let mut s = auto_state();
    let genesis = info(i64::MIN + 90, 3);
    let v = difficulty_data_to_vector(&mut s, vec![genesis]);
    let w = DIFFICULTY_ADJUST_WINDOW as usize + 1;
    assert_eq!(v[w - 1].timestamp, i64::MIN + 90);
    assert_eq!(v[w - 2].timestamp, i64::MIN + 30);
    for j in 0..w - 2 {
        assert_eq!(v[j].timestamp, i64::MIN);
    }
}

#[test]
fn graph_weight_values() {
    // Fresh graphs scale as (2 << (edge_bits - 24)) * edge_bits.
    assert_eq!(graph_weight(0, 29), 64 * 29);
    assert_eq!(graph_weight(0, 31), 256 * 31);
    // A 32-bit graph never decays.
    assert_eq!(graph_weight(10_000_000, 32), 512 * 32);
    // A 29-bit graph decays after its expiry height.
    assert_eq!(graph_weight(524160, 29), 64 * 28);
    // A long-expired small graph weighs nothing.
    assert_eq!(graph_weight(10_000_000, 31), 0);
}

#[test]
fn header_codec_round_trip() {
    let h = chain_core::chain::BlockHeaderData {
        version: 3,
        height: 17,
        hash: chain_core::hash::Hash::from_vec(&vec![0x21; 32]),
        previous: chain_core::hash::Hash::from_vec(&vec![0x22; 32]),
        prev_root: chain_core::hash::Hash::from_vec(&vec![0x23; 32]),
        output_root: chain_core::hash::Hash::from_vec(&vec![0x24; 32]),
        range_proof_root: chain_core::hash::Hash::from_vec(&vec![0x25; 32]),
        kernel_root: chain_core::hash::Hash::from_vec(&vec![0x26; 32]),
        output_mmr_size: 33,
        kernel_mmr_size: 18,
        timestamp: -5,
        total_difficulty: 170,
        secondary_scaling: 1856,
        nonce: 987654321,
        edge_bits: 31,
    };
    let bytes = chain_core::ser::encode_header(&h);
    assert_eq!(bytes.len(), chain_core::ser::HEADER_ENCODED_LEN);
    // The first fields appear big-endian at their fixed offsets.
    assert_eq!(&bytes[0..2], &[0, 3]);
    assert_eq!(&bytes[2..10], &[0, 0, 0, 0, 0, 0, 0, 17]);
    assert_eq!(bytes[246], 31);
    let back = chain_core::ser::decode_header(&bytes).unwrap();
    assert_eq!(back.version, h.version);
    assert_eq!(back.height, h.height);
    assert_eq!(back.timestamp, h.timestamp);
    assert!(back.hash == h.hash);
    assert!(back.previous == h.previous);
    assert!(back.kernel_root == h.kernel_root);
    assert_eq!(back.output_mmr_size, h.output_mmr_size);
    assert_eq!(back.kernel_mmr_size, h.kernel_mmr_size);
    assert_eq!(back.total_difficulty, h.total_difficulty);
    assert_eq!(back.secondary_scaling, h.secondary_scaling);
    assert_eq!(back.nonce, h.nonce);
    assert_eq!(back.edge_bits, h.edge_bits);
    // A wrong length is refused.
    assert!(chain_core::ser::decode_header(&vec![0u8; 100]).is_none());
}
