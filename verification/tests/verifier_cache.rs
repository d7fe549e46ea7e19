use chain_core::chain::{KernelData, KernelFeatures, OutputData, OutputFeatures};
use chain_core::verifier_cache::{LruSet, LruVerifierCache};

fn output(commit_byte: u8) -> OutputData {
    OutputData {
        features: OutputFeatures::Plain,
        commit: vec![commit_byte; 33],
        proof: vec![commit_byte ^ 0xff; 8],
    }
}

fn kernel(excess_byte: u8) -> KernelData {
    KernelData {
        features: KernelFeatures::Plain,
        fee: 2,
        lock_height: 0,
        excess: vec![excess_byte; 33],
        excess_sig: vec![excess_byte ^ 0xff; 64],
    }
}

#[test]
fn test_verifier_cache_rangeproofs() {
    let mut cache = LruVerifierCache::new();
    let out = output(0x05);

    // Check our output is not verified according to the cache.
    let unverified = cache.filter_rangeproof_unverified(vec![output(0x05)]);
    assert_eq!(unverified.len(), 1);
    assert_eq!(unverified[0].commit, out.commit);

    // Add our output to the cache.
    cache.add_rangeproof_verified(vec![output(0x05)]);

    // Check it shows as verified according to the cache.
    let unverified = cache.filter_rangeproof_unverified(vec![output(0x05)]);
    assert_eq!(unverified.len(), 0);
}

#[test]
fn verifier_cache_kernel_sigs() {
    let mut cache = LruVerifierCache::new();
    let unverified = cache.filter_kernel_sig_unverified(vec![kernel(0x01), kernel(0x02)]);
    assert_eq!(unverified.len(), 2);
    cache.add_kernel_sig_verified(vec![kernel(0x01)]);
    let unverified = cache.filter_kernel_sig_unverified(vec![kernel(0x01), kernel(0x02)]);
    assert_eq!(unverified.len(), 1);
    assert_eq!(unverified[0].excess, vec![0x02; 33]);
    // A changed signature is a different cache entry.
    let mut other_sig = kernel(0x01);
    other_sig.excess_sig = vec![0x33; 64];
    let unverified = cache.filter_kernel_sig_unverified(vec![other_sig]);
    assert_eq!(unverified.len(), 1);
}

#[test]
fn filter_keeps_order_of_misses() {
    let mut cache = LruVerifierCache::new();
    cache.add_rangeproof_verified(vec![output(0x02)]);
    let unverified =
        cache.filter_rangeproof_unverified(vec![output(0x01), output(0x02), output(0x03)]);
    assert_eq!(unverified.len(), 2);
    assert_eq!(unverified[0].commit, vec![0x01; 33]);
    assert_eq!(unverified[1].commit, vec![0x03; 33]);
}

#[test]
fn lru_set_evicts_least_recently_used() {
    // Capacity two: the third insert evicts the least recently used.
    let mut set = LruSet::new(2);
    set.insert(vec![1]);
    set.insert(vec![2]);
    assert!(set.contains(&[1]));
    assert!(set.contains(&[2]));
    set.insert(vec![3]);
    assert!(!set.contains(&[1]));
    assert!(set.contains(&[2]));
    assert!(set.contains(&[3]));
}

#[test]
fn lru_set_refresh_on_insert() {
    // Re-inserting a held key marks it most recently used, so the
    // other key is the one evicted.
    let mut set = LruSet::new(2);
    set.insert(vec![1]);
    set.insert(vec![2]);
    set.insert(vec![1]);
    set.insert(vec![3]);
    assert!(set.contains(&[1]));
    assert!(!set.contains(&[2]));
    assert!(set.contains(&[3]));
}
