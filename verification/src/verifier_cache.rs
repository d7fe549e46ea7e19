//! A verifier cache memoising expensive cryptographic checks: two
//! bounded least-recently-used sets of keys, one for range proofs and
//! one for kernel signatures. The cache is never a source of truth: a
//! miss only triggers re-verification.
use vstd::prelude::*;
use crate::chain::{KernelData, OutputData};
use crate::encoding::{bytes_clone, bytes_eq};

verus! {

/// Does the recency list `m` hold the key `k`?
pub open spec fn spec_contains(m: Seq<Seq<u8>>, k: Seq<u8>) -> bool {
    exists|i: int| 0 <= i < m.len() && m[i] == k
}

/// No key occurs twice in `m`.
pub open spec fn spec_nodup(m: Seq<Seq<u8>>) -> bool {
    forall|i: int, j: int| 0 <= i < j < m.len() ==> m[i] != m[j]
}

/// `m` with every occurrence of `k` removed, order kept.
pub open spec fn spec_remove(m: Seq<Seq<u8>>, k: Seq<u8>) -> Seq<Seq<u8>>
    decreases m.len(),
{
    if m.len() == 0 {
        Seq::empty()
    } else if m[0] == k {
        spec_remove(m.drop_first(), k)
    } else {
        seq![m[0]] + spec_remove(m.drop_first(), k)
    }
}

/// What inserting `k` as most recently used does to the recency list:
/// `k` moves to the front, and when the list would exceed `cap` the
/// least recently used key at the back falls out.
pub open spec fn spec_insert(m: Seq<Seq<u8>>, k: Seq<u8>, cap: int) -> Seq<Seq<u8>> {
    let pushed = seq![k] + spec_remove(m, k);
    if pushed.len() <= cap {
        pushed
    } else {
        pushed.take(cap)
    }
}

/// The recency list after inserting each key of `ks` in order.
pub open spec fn spec_add_all(m: Seq<Seq<u8>>, ks: Seq<Seq<u8>>, cap: int) -> Seq<Seq<u8>>
    decreases ks.len(),
{
    if ks.len() == 0 {
        m
    } else {
        spec_add_all(spec_insert(m, ks[0], cap), ks.drop_first(), cap)
    }
}

/// The index of the first occurrence of `k` in `m` (the length of `m`
/// when `k` is absent).
pub open spec fn spec_index_of(m: Seq<Seq<u8>>, k: Seq<u8>) -> int
    decreases m.len(),
{
    if m.len() == 0 {
        0
    } else if m[0] == k {
        0
    } else {
        1 + spec_index_of(m.drop_first(), k)
    }
}

proof fn lemma_index_of(m: Seq<Seq<u8>>, k: Seq<u8>)
    requires
        spec_contains(m, k),
    ensures
        0 <= spec_index_of(m, k) < m.len(),
        m[spec_index_of(m, k)] == k,
    decreases m.len(),
{
    if m.len() > 0 && m[0] != k {
        assert(spec_contains(m.drop_first(), k)) by {
            let i = choose|i: int| 0 <= i < m.len() && m[i] == k;
            assert(m.drop_first()[i - 1] == k);
        }
        lemma_index_of(m.drop_first(), k);
    }
}

proof fn lemma_remove_absent(m: Seq<Seq<u8>>, k: Seq<u8>)
    requires
        !spec_contains(m, k),
    ensures
        spec_remove(m, k) =~= m,
    decreases m.len(),
{
    if m.len() > 0 {
        assert(m[0] != k);
        assert forall|i: int| 0 <= i < m.drop_first().len() implies m.drop_first()[i] != k by {
            assert(m.drop_first()[i] == m[i + 1]);
        }
        lemma_remove_absent(m.drop_first(), k);
    }
}

proof fn lemma_remove_keeps(m: Seq<Seq<u8>>, k: Seq<u8>, x: Seq<u8>)
    requires
        spec_contains(m, x),
        x != k,
    ensures
        spec_contains(spec_remove(m, k), x),
        spec_index_of(spec_remove(m, k), x) <= spec_index_of(m, x),
    decreases m.len(),
{
    if m.len() > 0 {
        if m[0] == x {
            assert(spec_remove(m, k)[0] == x);
        } else {
            assert(spec_contains(m.drop_first(), x)) by {
                let i = choose|i: int| 0 <= i < m.len() && m[i] == x;
                assert(m.drop_first()[i - 1] == x);
            }
            lemma_remove_keeps(m.drop_first(), k, x);
            if m[0] != k {
                let rest = spec_remove(m.drop_first(), k);
                let ri = spec_index_of(rest, x);
                lemma_index_of(rest, x);
                assert(spec_remove(m, k)[ri + 1] == x);
                lemma_index_prefix(m[0], rest, x);
            }
        }
    }
}

proof fn lemma_index_prefix(head: Seq<u8>, rest: Seq<Seq<u8>>, x: Seq<u8>)
    requires
        head != x,
    ensures
        spec_index_of(seq![head] + rest, x) == 1 + spec_index_of(rest, x),
{
    let m = seq![head] + rest;
    assert(m[0] == head);
    assert(m.drop_first() =~= rest);
}

proof fn lemma_contains_take(m: Seq<Seq<u8>>, x: Seq<u8>, n: int)
    requires
        spec_contains(m, x),
        spec_index_of(m, x) < n <= m.len(),
    ensures
        spec_contains(m.take(n), x),
        spec_index_of(m.take(n), x) == spec_index_of(m, x),
    decreases m.len(),
{
    lemma_index_of(m, x);
    if m[0] == x {
        assert(m.take(n)[0] == x);
    } else {
        assert(spec_contains(m.drop_first(), x)) by {
            let i = choose|i: int| 0 <= i < m.len() && m[i] == x;
            assert(m.drop_first()[i - 1] == x);
        }
        assert(m.take(n).drop_first() =~= m.drop_first().take(n - 1));
        lemma_contains_take(m.drop_first(), x, n - 1);
        assert(m.take(n)[0] == m[0]);
        lemma_index_of(m.drop_first().take(n - 1), x);
        assert(m.take(n)[spec_index_of(m.drop_first().take(n - 1), x) + 1] == x);
    }
}

/// Inserting a key puts it at the front; any other key already held
/// close enough to the front survives, moved back by at most one slot.
proof fn lemma_insert_tracks(m: Seq<Seq<u8>>, k: Seq<u8>, cap: int, x: Seq<u8>)
    requires
        cap >= 1,
    ensures
        x == k ==> spec_contains(spec_insert(m, k, cap), x) && spec_index_of(
            spec_insert(m, k, cap),
            x,
        ) == 0,
        x != k && spec_contains(m, x) && spec_index_of(m, x) + 1 < cap ==> spec_contains(
            spec_insert(m, k, cap),
            x,
        ) && spec_index_of(spec_insert(m, k, cap), x) <= spec_index_of(m, x) + 1,
{
    let pushed = seq![k] + spec_remove(m, k);
    assert(pushed[0] == k);
    if x == k {
        if pushed.len() > cap {
            assert(pushed.take(cap)[0] == k);
        }
    } else if spec_contains(m, x) && spec_index_of(m, x) + 1 < cap {
        lemma_remove_keeps(m, k, x);
        lemma_index_prefix(k, spec_remove(m, k), x);
        let ri = spec_index_of(spec_remove(m, k), x);
        lemma_index_of(spec_remove(m, k), x);
        assert(pushed[ri + 1] == x);
        lemma_index_of(pushed, x);
        if pushed.len() > cap {
            lemma_contains_take(pushed, x, cap);
        }
    }
}

/// Every key of a batch just inserted is still held, provided the
/// batch fits the capacity: key `ks[j]` ends up within the first
/// `ks.len() - j` slots.
proof fn lemma_add_all_tracks(m: Seq<Seq<u8>>, ks: Seq<Seq<u8>>, cap: int, x: Seq<u8>, p: int)
    requires
        cap >= 1,
        spec_contains(m, x),
        spec_index_of(m, x) <= p,
        p + ks.len() < cap,
    ensures
        spec_contains(spec_add_all(m, ks, cap), x),
        spec_index_of(spec_add_all(m, ks, cap), x) <= p + ks.len(),
    decreases ks.len(),
{
    lemma_index_of(m, x);
    if ks.len() > 0 {
        let m1 = spec_insert(m, ks[0], cap);
        lemma_insert_tracks(m, ks[0], cap, x);
        if x == ks[0] {
            lemma_add_all_tracks(m1, ks.drop_first(), cap, x, 0);
        } else {
            lemma_add_all_tracks(m1, ks.drop_first(), cap, x, p + 1);
        }
    }
}

/// Cache soundness: every key of a batch that fits the capacity is
/// held after the batch was inserted.
pub proof fn lemma_add_all_contains(m: Seq<Seq<u8>>, ks: Seq<Seq<u8>>, cap: int, j: int)
    requires
        cap >= 1,
        ks.len() <= cap,
        0 <= j < ks.len(),
    ensures
        spec_contains(spec_add_all(m, ks, cap), ks[j]),
    decreases j,
{
    let m1 = spec_insert(m, ks[0], cap);
    if j == 0 {
        lemma_insert_tracks(m, ks[0], cap, ks[0]);
        lemma_add_all_tracks(m1, ks.drop_first(), cap, ks[0], 0);
    } else {
        lemma_add_all_contains(m1, ks.drop_first(), cap, j - 1);
        assert(ks.drop_first()[j - 1] == ks[j]);
    }
}

proof fn lemma_remove_nodup(m: Seq<Seq<u8>>, k: Seq<u8>)
    requires
        spec_nodup(m),
    ensures
        spec_nodup(spec_remove(m, k)),
        !spec_contains(spec_remove(m, k), k),
        forall|x: Seq<u8>| spec_contains(spec_remove(m, k), x) ==> spec_contains(m, x),
    decreases m.len(),
{
    if m.len() > 0 {
        let d = m.drop_first();
        assert(spec_nodup(d)) by {
            assert forall|i: int, j: int| 0 <= i < j < d.len() implies d[i] != d[j] by {
                assert(d[i] == m[i + 1] && d[j] == m[j + 1]);
            }
        }
        lemma_remove_nodup(d, k);
        assert forall|x: Seq<u8>| spec_contains(spec_remove(d, k), x) implies spec_contains(
            m,
            x,
        ) by {
            assert(spec_contains(d, x));
            let i = choose|i: int| 0 <= i < d.len() && d[i] == x;
            assert(m[i + 1] == x);
        }
        if m[0] != k {
            let r = seq![m[0]] + spec_remove(d, k);
            assert forall|i: int, j: int| 0 <= i < j < r.len() implies r[i] != r[j] by {
                if i == 0 {
                    assert(r[j] == spec_remove(d, k)[j - 1]);
                    assert(spec_contains(spec_remove(d, k), r[j]));
                    assert(spec_contains(d, r[j]));
                    if m[0] == r[j] {
                        let t = choose|t: int| 0 <= t < d.len() && d[t] == r[j];
                        assert(d[t] == m[t + 1]);
                        assert(m[t + 1] == m[0]);
                    }
                } else {
                    assert(r[i] == spec_remove(d, k)[i - 1]);
                    assert(r[j] == spec_remove(d, k)[j - 1]);
                }
            }
            assert forall|x: Seq<u8>| spec_contains(r, x) implies spec_contains(m, x) by {
                let i = choose|i: int| 0 <= i < r.len() && r[i] == x;
                if i == 0 {
                } else {
                    assert(spec_contains(spec_remove(d, k), x));
                }
            }
            if spec_contains(r, k) {
                let i = choose|i: int| 0 <= i < r.len() && r[i] == k;
                assert(i > 0);
                assert(spec_contains(spec_remove(d, k), k));
            }
        }
    }
}

/// Inserting into a duplicate-free list keeps it duplicate-free and
/// within capacity.
proof fn lemma_insert_wf(m: Seq<Seq<u8>>, k: Seq<u8>, cap: int)
    requires
        cap >= 1,
        spec_nodup(m),
    ensures
        spec_nodup(spec_insert(m, k, cap)),
        spec_insert(m, k, cap).len() <= cap,
{
    lemma_remove_nodup(m, k);
    let pushed = seq![k] + spec_remove(m, k);
    assert(spec_nodup(pushed)) by {
        assert forall|i: int, j: int| 0 <= i < j < pushed.len() implies pushed[i] != pushed[j] by {
            if i == 0 {
                assert(pushed[j] == spec_remove(m, k)[j - 1]);
                assert(spec_contains(spec_remove(m, k), pushed[j]));
            } else {
                assert(pushed[i] == spec_remove(m, k)[i - 1]);
                assert(pushed[j] == spec_remove(m, k)[j - 1]);
            }
        }
    }
    if pushed.len() > cap {
        assert forall|i: int, j: int|
            0 <= i < j < pushed.take(cap).len() implies pushed.take(cap)[i] != pushed.take(
            cap,
        )[j] by {
            assert(pushed.take(cap)[i] == pushed[i] && pushed.take(cap)[j] == pushed[j]);
        }
    }
}

/// The LRU-eviction law: inserting a fresh key into a full list drops
/// exactly the least recently used key — the new list is the fresh key
/// followed by all old keys but the last, so the last is gone and
/// every other key is kept.
pub proof fn lemma_lru_eviction(m: Seq<Seq<u8>>, k: Seq<u8>, cap: int)
    requires
        cap >= 1,
        spec_nodup(m),
        m.len() == cap,
        !spec_contains(m, k),
    ensures
        spec_insert(m, k, cap) =~= seq![k] + m.drop_last(),
        spec_contains(spec_insert(m, k, cap), k),
        !spec_contains(spec_insert(m, k, cap), m.last()),
        forall|x: Seq<u8>|
            spec_contains(m, x) && x != m.last() ==> spec_contains(spec_insert(m, k, cap), x),
{
    lemma_remove_absent(m, k);
    let ins = spec_insert(m, k, cap);
    assert(ins =~= seq![k] + m.drop_last());
    assert(ins[0] == k);
    assert forall|j: int| 0 <= j < ins.len() implies ins[j] != m.last() by {
        if j == 0 {
            assert(m[m.len() - 1] == m.last());
        } else {
            assert(ins[j] == m[j - 1]);
        }
    }
    assert forall|x: Seq<u8>| spec_contains(m, x) && x != m.last() implies spec_contains(
        ins,
        x,
    ) by {
        let i = choose|i: int| 0 <= i < m.len() && m[i] == x;
        assert(i < cap - 1);
        assert(ins[i + 1] == x);
    }
}

/// The views of a list of byte keys.
pub open spec fn keys_view(ks: Seq<Vec<u8>>) -> Seq<Seq<u8>> {
    Seq::new(ks.len(), |i: int| ks[i]@)
}

/// A bounded set of byte keys with least-recently-used eviction, most
/// recently used first.
#[derive(Debug)]
pub struct LruSet {
    cap: usize,
    keys: Vec<Vec<u8>>,
}

impl View for LruSet {
    type V = Seq<Seq<u8>>;

    closed spec fn view(&self) -> Seq<Seq<u8>> {
        keys_view(self.keys@)
    }
}

impl LruSet {
    /// The capacity the set was created with.
    pub closed spec fn spec_cap(&self) -> int {
        self.cap as int
    }

    /// The set never exceeds its capacity and holds no key twice.
    pub open spec fn wf(&self) -> bool {
        &&& self.spec_cap() >= 1
        &&& self@.len() <= self.spec_cap()
        &&& spec_nodup(self@)
    }

    /// An empty set of the given capacity.
    pub fn new(cap: usize) -> (r: LruSet)
        requires
            cap >= 1,
        ensures
            r.wf(),
            r@ =~= Seq::<Seq<u8>>::empty(),
            r.spec_cap() == cap,
    {
        LruSet { cap, keys: Vec::new() }
    }

    /// Is the key held?
    pub fn contains(&self, key: &[u8]) -> (r: bool)
        ensures
            r == spec_contains(self@, key@),
    {
        let mut i: usize = 0;
        while i < self.keys.len()
            invariant
                i <= self.keys@.len(),
                forall|j: int| 0 <= j < i ==> self@[j] != key@,
            decreases self.keys@.len() - i,
        {
            if bytes_eq(self.keys[i].as_slice(), key) {
                proof {
                    assert(self@[i as int] == key@);
                }
                return true;
            }
            i = i + 1;
        }
        false
    }

    /// Mark the key as the most recently used, evicting the least
    /// recently used key when the set is full.
    pub fn insert(&mut self, key: Vec<u8>)
        requires
            old(self).wf(),
        ensures
            final(self).wf(),
            final(self)@ =~= spec_insert(old(self)@, key@, old(self).spec_cap()),
            final(self).spec_cap() == old(self).spec_cap(),
    {
        let ghost m = self@;
        let ghost kv = key@;
        let ghost capg = self.spec_cap();
        let kc = bytes_clone(&key);
        let mut out: Vec<Vec<u8>> = Vec::new();
        out.push(key);
        let mut i: usize = 0;
        proof {
            assert(m.take(0) =~= Seq::<Seq<u8>>::empty());
            assert(keys_view(out@) =~= seq![kv] + spec_remove(m.take(0), kv));
        }
        while i < self.keys.len()
            invariant
                i <= self.keys@.len(),
                m == self@,
                capg == self.spec_cap(),
                capg >= 1,
                kc@ == kv,
                ({
                    let base = seq![kv] + spec_remove(m.take(i as int), kv);
                    keys_view(out@) =~= (if base.len() <= capg {
                        base
                    } else {
                        base.take(capg)
                    })
                }),
            decreases self.keys@.len() - i,
        {
            let ghost base = seq![kv] + spec_remove(m.take(i as int), kv);
            proof {
                assert(m.take(i as int + 1).drop_last() =~= m.take(i as int));
                lemma_remove_snoc(m.take(i as int + 1), kv);
                assert(m.take(i as int + 1).last() == m[i as int]);
                assert(m[i as int] == self.keys@[i as int]@);
            }
            if !bytes_eq(self.keys[i].as_slice(), kc.as_slice()) {
                if out.len() < self.cap {
                    proof {
                        assert(keys_view(out@).len() == out@.len());
                        if base.len() > capg {
                            assert(keys_view(out@) =~= base.take(capg));
                            assert(out@.len() == capg);
                        }
                        assert(keys_view(out@) =~= base);
                    }
                    out.push(bytes_clone(&self.keys[i]));
                    proof {
                        let base2 = seq![kv] + spec_remove(m.take(i as int + 1), kv);
                        assert(base2 =~= base + seq![m[i as int]]);
                        assert(keys_view(out@) =~= base2);
                    }
                } else {
                    proof {
                        assert(keys_view(out@).len() == out@.len());
                        let base2 = seq![kv] + spec_remove(m.take(i as int + 1), kv);
                        assert(base2 =~= base + seq![m[i as int]]);
                        if base.len() <= capg {
                            assert(keys_view(out@) =~= base);
                            assert(base.len() == capg);
                            assert(base2.take(capg) =~= base);
                        } else {
                            assert(base2.take(capg) =~= base.take(capg));
                        }
                        assert(keys_view(out@) =~= base2.take(capg));
                    }
                }
            } else {
                proof {
                    let base2 = seq![kv] + spec_remove(m.take(i as int + 1), kv);
                    assert(base2 =~= base);
                    assert(base2 == base);
                }
            }
            i = i + 1;
        }
        proof {
            assert(m.take(m.len() as int) =~= m);
            lemma_insert_wf(m, kv, capg);
        }
        self.keys = out;
    }
}

/// `spec_remove` over a list with one more entry at the back: the
/// entry is kept at the back exactly when it is not the removed key.
proof fn lemma_remove_snoc(m: Seq<Seq<u8>>, k: Seq<u8>)
    requires
        m.len() >= 1,
    ensures
        m.last() == k ==> spec_remove(m, k) =~= spec_remove(m.drop_last(), k),
        m.last() != k ==> spec_remove(m, k) =~= spec_remove(m.drop_last(), k) + seq![m.last()],
    decreases m.len(),
{
    if m.len() == 1 {
        assert(m.drop_last() =~= Seq::<Seq<u8>>::empty());
        assert(m.drop_first() =~= Seq::<Seq<u8>>::empty());
    } else {
        let d = m.drop_first();
        lemma_remove_snoc(d, k);
        assert(d.last() == m.last());
        assert(m.drop_last().drop_first() =~= d.drop_last());
        assert(m.drop_last()[0] == m[0]);
    }
}

/// The cache key of an output: its commitment followed by its range
/// proof.
pub open spec fn spec_output_key(o: OutputData) -> Seq<u8> {
    o.commit@ + o.proof@
}

/// The cache key of a kernel: its excess followed by its signature.
pub open spec fn spec_kernel_key(k: KernelData) -> Seq<u8> {
    k.excess@ + k.excess_sig@
}

/// The cache keys of a batch of outputs.
pub open spec fn output_keys_of(xs: Seq<OutputData>) -> Seq<Seq<u8>> {
    Seq::new(xs.len(), |i: int| spec_output_key(xs[i]))
}

/// The cache keys of a batch of kernels.
pub open spec fn kernel_keys_of(xs: Seq<KernelData>) -> Seq<Seq<u8>> {
    Seq::new(xs.len(), |i: int| spec_kernel_key(xs[i]))
}

/// The outputs whose range proof the recency list does not vouch for.
pub open spec fn rp_unverified(m: Seq<Seq<u8>>) -> spec_fn(OutputData) -> bool {
    |o: OutputData| !spec_contains(m, spec_output_key(o))
}

/// The kernels whose signature the recency list does not vouch for.
pub open spec fn sig_unverified(m: Seq<Seq<u8>>) -> spec_fn(KernelData) -> bool {
    |k: KernelData| !spec_contains(m, spec_kernel_key(k))
}

fn output_key(o: &OutputData) -> (r: Vec<u8>)
    ensures
        r@ == spec_output_key(*o),
{
    let mut t = bytes_clone(&o.commit);
    let mut p = bytes_clone(&o.proof);
    t.append(&mut p);
    t
}

fn kernel_key(k: &KernelData) -> (r: Vec<u8>)
    ensures
        r@ == spec_kernel_key(*k),
{
    let mut t = bytes_clone(&k.excess);
    let mut p = bytes_clone(&k.excess_sig);
    t.append(&mut p);
    t
}

/// How many verification results each of the two sets remembers.
pub const VERIFIER_CACHE_SIZE: usize = 50000;

/// An LRU cache of verification results: which range proofs and which
/// kernel signatures have already been checked.
#[derive(Debug)]
pub struct LruVerifierCache {
    rangeproofs: LruSet,
    kernel_sigs: LruSet,
}

impl LruVerifierCache {
    /// The remembered range-proof keys, most recently used first.
    pub closed spec fn rangeproof_model(&self) -> Seq<Seq<u8>> {
        self.rangeproofs@
    }

    /// The remembered kernel-signature keys, most recently used first.
    pub closed spec fn kernel_sig_model(&self) -> Seq<Seq<u8>> {
        self.kernel_sigs@
    }

    /// The capacity of each of the two sets.
    pub closed spec fn spec_cap(&self) -> int {
        self.rangeproofs.spec_cap()
    }

    /// Both sets are within capacity and duplicate-free.
    pub closed spec fn wf(&self) -> bool {
        &&& self.rangeproofs.wf()
        &&& self.kernel_sigs.wf()
        &&& self.kernel_sigs.spec_cap() == self.spec_cap()
    }

    /// An empty cache at the default capacity.
    pub fn new() -> (r: LruVerifierCache)
        ensures
            r.wf(),
            r.rangeproof_model() =~= Seq::<Seq<u8>>::empty(),
            r.kernel_sig_model() =~= Seq::<Seq<u8>>::empty(),
            r.spec_cap() == VERIFIER_CACHE_SIZE,
    {
        LruVerifierCache {
            rangeproofs: LruSet::new(VERIFIER_CACHE_SIZE),
            kernel_sigs: LruSet::new(VERIFIER_CACHE_SIZE),
        }
    }

    /// The outputs of the batch whose range proof is not remembered as
    /// verified; order is kept, and the cache is not consulted as a
    /// source of truth for anything else.
    pub fn filter_rangeproof_unverified(&self, outputs: Vec<OutputData>) -> (r: Vec<OutputData>)
        ensures
            r@ == outputs@.filter(rp_unverified(self.rangeproof_model())),
    {
        let ghost xs0 = outputs@;
        let ghost pred = rp_unverified(self.rangeproof_model());
        let mut rem = outputs;
        let mut out: Vec<OutputData> = Vec::new();
        let ghost mut i: int = 0;
        proof {
            reveal_with_fuel(Seq::filter, 2);
            assert(xs0.skip(0) =~= xs0);
            assert(xs0.take(0).filter(pred) =~= Seq::<OutputData>::empty());
        }
        while rem.len() > 0
            invariant
                0 <= i,
                i + rem@.len() == xs0.len(),
                rem@ =~= xs0.skip(i),
                out@ =~= xs0.take(i).filter(pred),
                pred == rp_unverified(self.rangeproof_model()),
            decreases rem@.len(),
        {
            let o = rem.remove(0);
            proof {
                assert(o == xs0[i]);
                assert(rem@ =~= xs0.skip(i + 1));
                assert(xs0.take(i + 1).drop_last() =~= xs0.take(i));
                assert(xs0.take(i + 1).last() == xs0[i]);
            }
            let key = output_key(&o);
            if !self.rangeproofs.contains(key.as_slice()) {
                out.push(o);
            }
            proof {
                i = i + 1;
                reveal_with_fuel(Seq::filter, 2);
                assert(out@ =~= xs0.take(i).filter(pred));
            }
        }
        proof {
            assert(xs0.take(xs0.len() as int) =~= xs0);
        }
        out
    }

    /// Remember each output of the batch as having a verified range
    /// proof, in order, as the most recently used entries.
    pub fn add_rangeproof_verified(&mut self, outputs: Vec<OutputData>)
        requires
            old(self).wf(),
        ensures
            final(self).wf(),
            final(self).rangeproof_model() =~= spec_add_all(
                old(self).rangeproof_model(),
                output_keys_of(outputs@),
                old(self).spec_cap(),
            ),
            final(self).kernel_sig_model() == old(self).kernel_sig_model(),
            final(self).spec_cap() == old(self).spec_cap(),
    {
        let ghost m0 = self.rangeproof_model();
        let ghost ks = output_keys_of(outputs@);
        let ghost capg = self.spec_cap();
        let mut i: usize = 0;
        proof {
            assert(ks.skip(0) =~= ks);
        }
        while i < outputs.len()
            invariant
                i <= outputs@.len(),
                ks == output_keys_of(outputs@),
                capg == self.spec_cap(),
                self.wf(),
                self.kernel_sig_model() == old(self).kernel_sig_model(),
                spec_add_all(m0, ks, capg) == spec_add_all(
                    self.rangeproof_model(),
                    ks.skip(i as int),
                    capg,
                ),
            decreases outputs@.len() - i,
        {
            proof {
                assert(ks.skip(i as int)[0] == ks[i as int]);
                assert(ks.skip(i as int).drop_first() =~= ks.skip(i as int + 1));
            }
            let key = output_key(&outputs[i]);
            self.rangeproofs.insert(key);
            i = i + 1;
        }
        proof {
            assert(ks.skip(ks.len() as int) =~= Seq::<Seq<u8>>::empty());
        }
    }

    /// The kernels of the batch whose signature is not remembered as
    /// verified; order is kept.
    pub fn filter_kernel_sig_unverified(&self, kernels: Vec<KernelData>) -> (r: Vec<KernelData>)
        ensures
            r@ == kernels@.filter(sig_unverified(self.kernel_sig_model())),
    {
        let ghost xs0 = kernels@;
        let ghost pred = sig_unverified(self.kernel_sig_model());
        let mut rem = kernels;
        let mut out: Vec<KernelData> = Vec::new();
        let ghost mut i: int = 0;
        proof {
            reveal_with_fuel(Seq::filter, 2);
            assert(xs0.skip(0) =~= xs0);
            assert(xs0.take(0).filter(pred) =~= Seq::<KernelData>::empty());
        }
        while rem.len() > 0
            invariant
                0 <= i,
                i + rem@.len() == xs0.len(),
                rem@ =~= xs0.skip(i),
                out@ =~= xs0.take(i).filter(pred),
                pred == sig_unverified(self.kernel_sig_model()),
            decreases rem@.len(),
        {
            let k = rem.remove(0);
            proof {
                assert(k == xs0[i]);
                assert(rem@ =~= xs0.skip(i + 1));
                assert(xs0.take(i + 1).drop_last() =~= xs0.take(i));
                assert(xs0.take(i + 1).last() == xs0[i]);
            }
            let key = kernel_key(&k);
            if !self.kernel_sigs.contains(key.as_slice()) {
                out.push(k);
            }
            proof {
                i = i + 1;
                reveal_with_fuel(Seq::filter, 2);
                assert(out@ =~= xs0.take(i).filter(pred));
            }
        }
        proof {
            assert(xs0.take(xs0.len() as int) =~= xs0);
        }
        out
    }

    /// Remember each kernel of the batch as having a verified
    /// signature, in order, as the most recently used entries.
    pub fn add_kernel_sig_verified(&mut self, kernels: Vec<KernelData>)
        requires
            old(self).wf(),
        ensures
            final(self).wf(),
            final(self).kernel_sig_model() =~= spec_add_all(
                old(self).kernel_sig_model(),
                kernel_keys_of(kernels@),
                old(self).spec_cap(),
            ),
            final(self).rangeproof_model() == old(self).rangeproof_model(),
            final(self).spec_cap() == old(self).spec_cap(),
    {
        let ghost m0 = self.kernel_sig_model();
        let ghost ks = kernel_keys_of(kernels@);
        let ghost capg = self.spec_cap();
        let mut i: usize = 0;
        proof {
            assert(ks.skip(0) =~= ks);
        }
        while i < kernels.len()
            invariant
                i <= kernels@.len(),
                ks == kernel_keys_of(kernels@),
                capg == self.spec_cap(),
                self.wf(),
                self.rangeproof_model() == old(self).rangeproof_model(),
                spec_add_all(m0, ks, capg) == spec_add_all(
                    self.kernel_sig_model(),
                    ks.skip(i as int),
                    capg,
                ),
            decreases kernels@.len() - i,
        {
            proof {
                assert(ks.skip(i as int)[0] == ks[i as int]);
                assert(ks.skip(i as int).drop_first() =~= ks.skip(i as int + 1));
            }
            let key = kernel_key(&kernels[i]);
            self.kernel_sigs.insert(key);
            i = i + 1;
        }
        proof {
            assert(ks.skip(ks.len() as int) =~= Seq::<Seq<u8>>::empty());
        }
    }
}

proof fn lemma_filter_none_left(xs: Seq<OutputData>, pred: spec_fn(OutputData) -> bool)
    requires
        forall|j: int| 0 <= j < xs.len() ==> !pred(xs[j]),
    ensures
        xs.filter(pred) =~= Seq::<OutputData>::empty(),
    decreases xs.len(),
{
    reveal_with_fuel(Seq::filter, 2);
    if xs.len() > 0 {
        assert forall|j: int| 0 <= j < xs.drop_last().len() implies !pred(xs.drop_last()[j]) by {
            assert(xs.drop_last()[j] == xs[j]);
        }
        lemma_filter_none_left(xs.drop_last(), pred);
        assert(!pred(xs.last()));
    }
}

/// The cache-soundness law: after a batch of outputs that fits the
/// capacity is added as verified, filtering that same batch for
/// unverified outputs returns nothing.
pub proof fn lemma_cache_soundness(m: Seq<Seq<u8>>, xs: Seq<OutputData>, cap: int)
    requires
        cap >= 1,
        xs.len() <= cap,
    ensures
        xs.filter(rp_unverified(spec_add_all(m, output_keys_of(xs), cap))) =~= Seq::<
            OutputData,
        >::empty(),
{
    let m2 = spec_add_all(m, output_keys_of(xs), cap);
    assert forall|j: int| 0 <= j < xs.len() implies !(rp_unverified(m2)(xs[j])) by {
        lemma_add_all_contains(m, output_keys_of(xs), cap, j);
        assert(output_keys_of(xs)[j] == spec_output_key(xs[j]));
    }
    lemma_filter_none_left(xs, rp_unverified(m2));
}

} // verus!
