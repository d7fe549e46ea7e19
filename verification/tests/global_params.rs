use chain_core::global::{
    base_edge_bits, coinbase_maturity, create_pow_context, cut_through_horizon, get_chain_type,
    get_network_name, get_tor_libp2p_port, init_global_chain_type, init_global_nrd_enabled,
    initial_block_difficulty, initial_graph_weight, is_floonet, is_mainnet, is_nrd_enabled,
    is_production_mode, is_server_running, max_block_weight, max_tx_weight, min_edge_bits,
    proofsize, request_server_stop, set_local_chain_type, set_local_nrd_enabled,
    state_sync_threshold, txhashset_archive_interval, ChainTypes, GlobalState, PowContextParams,
};

fn state_for(t: ChainTypes) -> GlobalState {
    let mut s = GlobalState::new();
    set_local_chain_type(&mut s, t);
    s
}

#[test]
fn chain_type_local_overrides_global() {
    let mut s = GlobalState::new();
    init_global_chain_type(&mut s, ChainTypes::Mainnet);
    assert_eq!(get_chain_type(&mut s), ChainTypes::Mainnet);
    set_local_chain_type(&mut s, ChainTypes::UserTesting);
    assert_eq!(get_chain_type(&mut s), ChainTypes::UserTesting);
}

#[test]
fn chain_type_global_fallback_is_cached() {
    let mut s = GlobalState::new();
    init_global_chain_type(&mut s, ChainTypes::Floonet);
    assert_eq!(get_chain_type(&mut s), ChainTypes::Floonet);
    assert_eq!(s.local_chain_type, Some(ChainTypes::Floonet));
}

#[test]
fn default_chain_type_is_mainnet() {
    assert_eq!(ChainTypes::default(), ChainTypes::Mainnet);
}

#[test]
fn shortnames() {
    assert_eq!(ChainTypes::AutomatedTesting.shortname(), "auto");
    assert_eq!(ChainTypes::UserTesting.shortname(), "user");
    assert_eq!(ChainTypes::Floonet.shortname(), "floo");
    assert_eq!(ChainTypes::Mainnet.shortname(), "main");
}

#[test]
fn network_names() {
    assert_eq!(get_network_name(&mut state_for(ChainTypes::AutomatedTesting)), "automatedtests");
    assert_eq!(get_network_name(&mut state_for(ChainTypes::UserTesting)), "usertestnet");
    assert_eq!(get_network_name(&mut state_for(ChainTypes::Floonet)), "floonet");
    assert_eq!(get_network_name(&mut state_for(ChainTypes::Mainnet)), "mainnet");
}

#[test]
fn nrd_flag_layers() {
    let mut s = GlobalState::new();
    // Nothing set: disabled by default.
    assert!(!is_nrd_enabled(&s));
    init_global_nrd_enabled(&mut s, true);
    assert!(is_nrd_enabled(&s));
    set_local_nrd_enabled(&mut s, false);
    assert!(!is_nrd_enabled(&s));
}

#[test]
fn parameters_per_chain_type() {
    let mut auto = state_for(ChainTypes::AutomatedTesting);
    let mut user = state_for(ChainTypes::UserTesting);
    let mut main = state_for(ChainTypes::Mainnet);
    assert_eq!(min_edge_bits(&mut auto), 10);
    assert_eq!(min_edge_bits(&mut user), 15);
    assert_eq!(min_edge_bits(&mut main), 31);
    assert_eq!(proofsize(&mut auto), 8);
    assert_eq!(proofsize(&mut user), 42);
    assert_eq!(proofsize(&mut main), 42);
    assert_eq!(coinbase_maturity(&mut auto), 3);
    assert_eq!(coinbase_maturity(&mut user), 3);
    assert_eq!(coinbase_maturity(&mut main), 1440);
    assert_eq!(cut_through_horizon(&mut auto), 20);
    assert_eq!(cut_through_horizon(&mut user), 70);
    assert_eq!(cut_through_horizon(&mut main), 2880);
    assert_eq!(txhashset_archive_interval(&mut auto), 10);
    assert_eq!(txhashset_archive_interval(&mut main), 720);
    assert_eq!(state_sync_threshold(&mut auto), 20);
    assert_eq!(state_sync_threshold(&mut main), 2880);
    assert_eq!(base_edge_bits(&mut auto), 10);
    assert_eq!(base_edge_bits(&mut main), 24);
    assert_eq!(initial_block_difficulty(&mut auto), 1);
    assert_eq!(initial_block_difficulty(&mut main), 1000000);
    assert_eq!(initial_graph_weight(&mut auto), 1);
    // 2 << (29 - 24) == 64 graphs of 29 edge bits each.
    assert_eq!(initial_graph_weight(&mut main), 64 * 29);
    assert_eq!(max_block_weight(&mut auto), 250);
    assert_eq!(max_block_weight(&mut main), 40000);
    assert_eq!(max_tx_weight(&mut main), 40000 - 21 - 3);
}

#[test]
fn production_flags() {
    let mut auto = state_for(ChainTypes::AutomatedTesting);
    let mut floo = state_for(ChainTypes::Floonet);
    let mut main = state_for(ChainTypes::Mainnet);
    assert!(!is_production_mode(&mut auto));
    assert!(is_production_mode(&mut floo));
    assert!(is_production_mode(&mut main));
    assert!(is_floonet(&mut floo));
    assert!(!is_floonet(&mut main));
    assert!(is_mainnet(&mut main));
    assert!(!is_mainnet(&mut floo));
    assert_eq!(get_tor_libp2p_port(&mut main), 81);
    assert_eq!(get_tor_libp2p_port(&mut floo), 82);
}

#[test]
fn pow_context_selection() {
    let mut main = state_for(ChainTypes::Mainnet);
    let mut floo = state_for(ChainTypes::Floonet);
    let mut auto = state_for(ChainTypes::AutomatedTesting);
    assert_eq!(
        create_pow_context(&mut main, 0, 29, 42, 10),
        PowContextParams::CuckarooD { edge_bits: 29, proof_size: 42 }
    );
    assert_eq!(
        create_pow_context(&mut main, 0, 31, 42, 10),
        PowContextParams::Cuckatoo { edge_bits: 31, proof_size: 42, max_sols: 10 }
    );
    assert_eq!(
        create_pow_context(&mut floo, 0, 29, 42, 10),
        PowContextParams::CuckarooD { edge_bits: 29, proof_size: 42 }
    );
    assert_eq!(
        create_pow_context(&mut auto, 0, 10, 8, 10),
        PowContextParams::Cuckatoo { edge_bits: 10, proof_size: 8, max_sols: 10 }
    );
}

#[test]
fn server_running_flag() {
    let mut s = GlobalState::new();
    assert!(is_server_running(&s));
    request_server_stop(&mut s);
    assert!(!is_server_running(&s));
}
