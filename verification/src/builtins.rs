//! Resource/builtin accountant: merges the per-primitive usage counts that a
//! completed call accumulated from three additive sources — the backend's own
//! report, the syscalls the call issued, and the already-finalized counters
//! of its nested calls — into one canonical, zero-pruned counter map.
//! Summation is commutative, so the result does not depend on the order in
//! which the sources are visited; fee determinism rests on that.
use vstd::prelude::*;

verus! {

/// A separately costed computation primitive.
#[derive(Clone, Copy, Debug, PartialEq, Eq, Hash, Structural)]
pub enum Builtin {
    RangeCheck,
    Pedersen,
    Ecdsa,
    Keccak,
    Bitwise,
    EcOp,
    Poseidon,
    SegmentArena,
    RangeCheck96,
    AddMod,
    MulMod,
}

/// Dense per-primitive invocation counts.
#[derive(Clone, Copy, Debug, PartialEq, Eq, Structural)]
pub struct BuiltinCounters {
    pub range_check: u64,
    pub pedersen: u64,
    pub ecdsa: u64,
    pub keccak: u64,
    pub bitwise: u64,
    pub ec_op: u64,
    pub poseidon: u64,
    pub segment_arena: u64,
    pub range_check96: u64,
    pub add_mod: u64,
    pub mul_mod: u64,
}

/// Per-primitive counts as a backend reports them for the call's own
/// bytecode; a backend meters neither signature verification nor keccak
/// itself, those arrive only through syscall accounting.
#[derive(Clone, Copy, Debug, PartialEq, Eq, Structural)]
pub struct BuiltinStats {
    pub range_check: u64,
    pub pedersen: u64,
    pub bitwise: u64,
    pub ec_op: u64,
    pub poseidon: u64,
    pub segment_arena: u64,
    pub range_check96: u64,
    pub add_mod: u64,
    pub mul_mod: u64,
}

/// The canonical sparse counter map: primitives in a fixed order, an entry
/// present exactly when its count is positive.
pub type BuiltinCounterMap = Vec<(Builtin, u64)>;

impl BuiltinCounters {
    /// The stored count of one primitive.
    pub open spec fn get(self, b: Builtin) -> u64 {
        match b {
            Builtin::RangeCheck => self.range_check,
            Builtin::Pedersen => self.pedersen,
            Builtin::Ecdsa => self.ecdsa,
            Builtin::Keccak => self.keccak,
            Builtin::Bitwise => self.bitwise,
            Builtin::EcOp => self.ec_op,
            Builtin::Poseidon => self.poseidon,
            Builtin::SegmentArena => self.segment_arena,
            Builtin::RangeCheck96 => self.range_check96,
            Builtin::AddMod => self.add_mod,
            Builtin::MulMod => self.mul_mod,
        }
    }

    /// The count of one primitive, as a mathematical integer.
    pub open spec fn count(self, b: Builtin) -> nat {
        self.get(b) as nat
    }

    /// All-zero counters.
    pub fn zero() -> (r: BuiltinCounters)
        ensures
            forall|b: Builtin| r.count(b) == 0,
    {
        BuiltinCounters {
            range_check: 0,
            pedersen: 0,
            ecdsa: 0,
            keccak: 0,
            bitwise: 0,
            ec_op: 0,
            poseidon: 0,
            segment_arena: 0,
            range_check96: 0,
            add_mod: 0,
            mul_mod: 0,
        }
    }

    /// Key-wise sum of two counter sets.
    pub fn add(&self, other: &BuiltinCounters) -> (r: BuiltinCounters)
        requires
            forall|b: Builtin| #[trigger] self.count(b) + other.count(b) <= u64::MAX,
        ensures
            forall|b: Builtin| #[trigger] r.count(b) == self.count(b) + other.count(b),
    {
        proof {
            assert(self.count(Builtin::RangeCheck) + other.count(Builtin::RangeCheck)
                <= u64::MAX);
            assert(self.count(Builtin::Pedersen) + other.count(Builtin::Pedersen) <= u64::MAX);
            assert(self.count(Builtin::Ecdsa) + other.count(Builtin::Ecdsa) <= u64::MAX);
            assert(self.count(Builtin::Keccak) + other.count(Builtin::Keccak) <= u64::MAX);
            assert(self.count(Builtin::Bitwise) + other.count(Builtin::Bitwise) <= u64::MAX);
            assert(self.count(Builtin::EcOp) + other.count(Builtin::EcOp) <= u64::MAX);
            assert(self.count(Builtin::Poseidon) + other.count(Builtin::Poseidon) <= u64::MAX);
            assert(self.count(Builtin::SegmentArena) + other.count(Builtin::SegmentArena)
                <= u64::MAX);
            assert(self.count(Builtin::RangeCheck96) + other.count(Builtin::RangeCheck96)
                <= u64::MAX);
            assert(self.count(Builtin::AddMod) + other.count(Builtin::AddMod) <= u64::MAX);
            assert(self.count(Builtin::MulMod) + other.count(Builtin::MulMod) <= u64::MAX);
        }
        let r = BuiltinCounters {
            range_check: self.range_check + other.range_check,
            pedersen: self.pedersen + other.pedersen,
            ecdsa: self.ecdsa + other.ecdsa,
            keccak: self.keccak + other.keccak,
            bitwise: self.bitwise + other.bitwise,
            ec_op: self.ec_op + other.ec_op,
            poseidon: self.poseidon + other.poseidon,
            segment_arena: self.segment_arena + other.segment_arena,
            range_check96: self.range_check96 + other.range_check96,
            add_mod: self.add_mod + other.add_mod,
            mul_mod: self.mul_mod + other.mul_mod,
        };
        assert forall|b: Builtin| #[trigger] r.count(b) == self.count(b) + other.count(b) by {
            match b {
                Builtin::RangeCheck => {},
                Builtin::Pedersen => {},
                Builtin::Ecdsa => {},
                Builtin::Keccak => {},
                Builtin::Bitwise => {},
                Builtin::EcOp => {},
                Builtin::Poseidon => {},
                Builtin::SegmentArena => {},
                Builtin::RangeCheck96 => {},
                Builtin::AddMod => {},
                Builtin::MulMod => {},
            }
        }
        r
    }
}

impl BuiltinStats {
    /// The backend-reported count of one primitive; a backend never reports
    /// signature or keccak usage itself.
    pub open spec fn count(self, b: Builtin) -> nat {
        (match b {
            Builtin::RangeCheck => self.range_check,
            Builtin::Pedersen => self.pedersen,
            Builtin::Ecdsa => 0,
            Builtin::Keccak => 0,
            Builtin::Bitwise => self.bitwise,
            Builtin::EcOp => self.ec_op,
            Builtin::Poseidon => self.poseidon,
            Builtin::SegmentArena => self.segment_arena,
            Builtin::RangeCheck96 => self.range_check96,
            Builtin::AddMod => self.add_mod,
            Builtin::MulMod => self.mul_mod,
        }) as nat
    }

    /// All-zero backend report.
    pub fn zero() -> (r: BuiltinStats)
        ensures
            forall|b: Builtin| r.count(b) == 0,
    {
        BuiltinStats {
            range_check: 0,
            pedersen: 0,
            bitwise: 0,
            ec_op: 0,
            poseidon: 0,
            segment_arena: 0,
            range_check96: 0,
            add_mod: 0,
            mul_mod: 0,
        }
    }
}

/// Key-wise total of a list of counter sets.
pub open spec fn sum_counts(s: Seq<BuiltinCounters>, b: Builtin) -> nat
    decreases s.len(),
{
    if s.len() == 0 {
        0
    } else {
        sum_counts(s.drop_last(), b) + s.last().count(b)
    }
}

/// The sparse entry of one primitive: present exactly when its count is
/// positive.
pub open spec fn map_entry(c: BuiltinCounters, b: Builtin) -> Seq<(Builtin, u64)> {
    if c.get(b) > 0 {
        seq![(b, c.get(b))]
    } else {
        Seq::empty()
    }
}

/// The sparse entries of a counter set: the fixed primitive order, zero
/// counts pruned.
pub open spec fn map_entries(c: BuiltinCounters) -> Seq<(Builtin, u64)> {
    map_entry(c, Builtin::RangeCheck) + map_entry(c, Builtin::Pedersen) + map_entry(
        c,
        Builtin::Ecdsa,
    ) + map_entry(c, Builtin::Keccak) + map_entry(c, Builtin::Bitwise) + map_entry(
        c,
        Builtin::EcOp,
    ) + map_entry(c, Builtin::Poseidon) + map_entry(c, Builtin::SegmentArena) + map_entry(
        c,
        Builtin::RangeCheck96,
    ) + map_entry(c, Builtin::AddMod) + map_entry(c, Builtin::MulMod)
}

impl Builtin {
    /// The stored count of this primitive within a counter set.
    pub fn lookup(&self, c: &BuiltinCounters) -> (r: u64)
        ensures
            r == c.get(*self),
    {
        match self {
            Builtin::RangeCheck => c.range_check,
            Builtin::Pedersen => c.pedersen,
            Builtin::Ecdsa => c.ecdsa,
            Builtin::Keccak => c.keccak,
            Builtin::Bitwise => c.bitwise,
            Builtin::EcOp => c.ec_op,
            Builtin::Poseidon => c.poseidon,
            Builtin::SegmentArena => c.segment_arena,
            Builtin::RangeCheck96 => c.range_check96,
            Builtin::AddMod => c.add_mod,
            Builtin::MulMod => c.mul_mod,
        }
    }
}

fn push_entry(out: &mut Vec<(Builtin, u64)>, c: &BuiltinCounters, b: Builtin)
    ensures
        final(out)@ == old(out)@ + map_entry(*c, b),
{
    let v = b.lookup(c);
    if v > 0 {
        out.push((b, v));
        assert(out@ =~= old(out)@ + map_entry(*c, b));
    } else {
        assert(out@ =~= old(out)@ + map_entry(*c, b));
    }
}

/// Builds the canonical sparse counter map of a counter set: primitives in
/// the fixed order, entries present exactly for positive counts.
pub fn to_counter_map(c: &BuiltinCounters) -> (out: BuiltinCounterMap)
    ensures
        out@ == map_entries(*c),
{
    let mut out: BuiltinCounterMap = Vec::new();
    push_entry(&mut out, c, Builtin::RangeCheck);
    push_entry(&mut out, c, Builtin::Pedersen);
    push_entry(&mut out, c, Builtin::Ecdsa);
    push_entry(&mut out, c, Builtin::Keccak);
    push_entry(&mut out, c, Builtin::Bitwise);
    push_entry(&mut out, c, Builtin::EcOp);
    push_entry(&mut out, c, Builtin::Poseidon);
    push_entry(&mut out, c, Builtin::SegmentArena);
    push_entry(&mut out, c, Builtin::RangeCheck96);
    push_entry(&mut out, c, Builtin::AddMod);
    push_entry(&mut out, c, Builtin::MulMod);
    assert(out@ =~= map_entries(*c));
    out
}

proof fn lemma_sum_counts_split(s: Seq<BuiltinCounters>, k: int, b: Builtin)
    requires
        0 <= k <= s.len(),
    ensures
        sum_counts(s, b) == sum_counts(s.take(k), b) + sum_counts(s.skip(k), b),
    decreases s.len(),
{
    if k == s.len() {
        assert(s.take(k) =~= s);
        assert(s.skip(k) =~= Seq::<BuiltinCounters>::empty());
    } else {
        lemma_sum_counts_split(s.drop_last(), k, b);
        assert(s.drop_last().take(k) =~= s.take(k));
        assert(s.skip(k).drop_last() =~= s.drop_last().skip(k));
        assert(s.skip(k).last() == s.last());
    }
}

/// A prefix of a counter list never sums above the whole list.
pub proof fn lemma_sum_counts_take_bound(s: Seq<BuiltinCounters>, k: int, b: Builtin)
    requires
        0 <= k <= s.len(),
    ensures
        sum_counts(s.take(k), b) <= sum_counts(s, b),
{
    lemma_sum_counts_split(s, k, b);
}

proof fn lemma_sum_counts_remove(s: Seq<BuiltinCounters>, k: int, b: Builtin)
    requires
        0 <= k < s.len(),
    ensures
        sum_counts(s, b) == sum_counts(s.remove(k), b) + s[k].count(b),
    decreases s.len(),
{
    if k == s.len() - 1 {
        assert(s.remove(k) =~= s.drop_last());
    } else {
        lemma_sum_counts_remove(s.drop_last(), k, b);
        assert(s.remove(k).drop_last() =~= s.drop_last().remove(k));
        assert(s.remove(k).last() == s.last());
    }
}

/// Summation of nested counters is order-independent: any two orderings of
/// the same collection of counter sets have the same key-wise total, so the
/// final counter map of a call does not depend on the order in which its
/// nested calls are visited.
pub proof fn lemma_sum_counts_permutation(
    s1: Seq<BuiltinCounters>,
    s2: Seq<BuiltinCounters>,
    b: Builtin,
)
    requires
        s1.to_multiset() == s2.to_multiset(),
    ensures
        sum_counts(s1, b) == sum_counts(s2, b),
    decreases s1.len(),
{
    broadcast use vstd::seq_lib::group_to_multiset_ensures;

    if s1.len() == 0 {
        assert(s2.to_multiset().len() == 0);
    } else {
        let x = s1.last();
        assert(s1[s1.len() - 1] == x);
        assert(s1.contains(x));
        assert(s1.to_multiset().count(x) > 0);
        assert(s2.to_multiset().count(x) > 0);
        assert(s2.contains(x));
        let k = choose|k: int| 0 <= k < s2.len() && s2[k] == x;
        assert(s1.remove(s1.len() - 1).to_multiset() =~= s1.to_multiset().remove(x));
        assert(s2.remove(k).to_multiset() =~= s2.to_multiset().remove(x));
        assert(s1.remove(s1.len() - 1) =~= s1.drop_last());
        lemma_sum_counts_permutation(s1.drop_last(), s2.remove(k), b);
        lemma_sum_counts_remove(s2, k, b);
    }
}

/// Final accounting for one completed call: the key-wise sum of the
/// backend's own report, the usage attributed to the call's syscalls, and
/// the already-finalized counters of every nested call.
pub fn final_builtin_counters(
    own: &BuiltinCounters,
    syscall: &BuiltinCounters,
    nested: &Vec<BuiltinCounters>,
) -> (r: BuiltinCounters)
    requires
        forall|b: Builtin| #[trigger]
            own.count(b) + syscall.count(b) + sum_counts(nested@, b) <= u64::MAX,
    ensures
        forall|b: Builtin| #[trigger]
            r.count(b) == own.count(b) + syscall.count(b) + sum_counts(nested@, b),
{
    assert forall|b: Builtin| #[trigger] own.count(b) + syscall.count(b) <= u64::MAX by {
        assert(own.count(b) + syscall.count(b) + sum_counts(nested@, b) <= u64::MAX);
    }
    let mut acc = own.add(syscall);
    let mut k: usize = 0;
    while k < nested.len()
        invariant
            k <= nested@.len(),
            forall|b: Builtin| #[trigger]
                own.count(b) + syscall.count(b) + sum_counts(nested@, b) <= u64::MAX,
            forall|b: Builtin| #[trigger]
                acc.count(b) == own.count(b) + syscall.count(b) + sum_counts(
                    nested@.take(k as int),
                    b,
                ),
        decreases nested@.len() - k,
    {
        proof {
            assert forall|b: Builtin| #[trigger]
                acc.count(b) + nested@[k as int].count(b) <= u64::MAX by {
                lemma_sum_counts_split(nested@, k as int + 1, b);
                assert(nested@.take(k as int + 1).drop_last() =~= nested@.take(k as int));
                assert(nested@.take(k as int + 1).last() == nested@[k as int]);
                assert(own.count(b) + syscall.count(b) + sum_counts(nested@, b) <= u64::MAX);
            }
        }
        acc = acc.add(&nested[k]);
        proof {
            assert forall|b: Builtin| #[trigger]
                acc.count(b) == own.count(b) + syscall.count(b) + sum_counts(
                    nested@.take(k as int + 1),
                    b,
                ) by {
                assert(nested@.take(k as int + 1).drop_last() =~= nested@.take(k as int));
                assert(nested@.take(k as int + 1).last() == nested@[k as int]);
            }
        }
        k += 1;
    }
    proof {
        assert(nested@.take(nested@.len() as int) =~= nested@);
    }
    acc
}

/// The counter set holding, for each primitive, the backend-reported count
/// plus the syscall-attributed count.  The sums are taken in `u64`; the
/// accountant's contracts rule overflow out before this is applied.
pub open spec fn stats_merge(stats: BuiltinStats, syscall_counts: BuiltinCounters) -> BuiltinCounters {
    BuiltinCounters {
        range_check: (stats.range_check + syscall_counts.range_check) as u64,
        pedersen: (stats.pedersen + syscall_counts.pedersen) as u64,
        ecdsa: syscall_counts.ecdsa,
        keccak: syscall_counts.keccak,
        bitwise: (stats.bitwise + syscall_counts.bitwise) as u64,
        ec_op: (stats.ec_op + syscall_counts.ec_op) as u64,
        poseidon: (stats.poseidon + syscall_counts.poseidon) as u64,
        segment_arena: (stats.segment_arena + syscall_counts.segment_arena) as u64,
        range_check96: (stats.range_check96 + syscall_counts.range_check96) as u64,
        add_mod: (stats.add_mod + syscall_counts.add_mod) as u64,
        mul_mod: (stats.mul_mod + syscall_counts.mul_mod) as u64,
    }
}

/// Merges the counts a backend reported for the call's own bytecode with
/// the builtin usage attributed to the syscalls it issued, pruning zero
/// entries from the resulting map.
pub fn builtin_stats_to_builtin_counter_map(
    stats: &BuiltinStats,
    syscall_counts: &BuiltinCounters,
) -> (out: BuiltinCounterMap)
    requires
        forall|b: Builtin| #[trigger] stats.count(b) + syscall_counts.count(b) <= u64::MAX,
    ensures
        out@ == map_entries(stats_merge(*stats, *syscall_counts)),
        forall|b: Builtin| #[trigger]
            stats_merge(*stats, *syscall_counts).count(b) == stats.count(b)
                + syscall_counts.count(b),
{
    proof {
        assert forall|b: Builtin| #[trigger]
            stats_merge(*stats, *syscall_counts).count(b) == stats.count(b)
                + syscall_counts.count(b) by {
            assert(stats.count(b) + syscall_counts.count(b) <= u64::MAX);
            match b {
                Builtin::RangeCheck => {},
                Builtin::Pedersen => {},
                Builtin::Ecdsa => {},
                Builtin::Keccak => {},
                Builtin::Bitwise => {},
                Builtin::EcOp => {},
                Builtin::Poseidon => {},
                Builtin::SegmentArena => {},
                Builtin::RangeCheck96 => {},
                Builtin::AddMod => {},
                Builtin::MulMod => {},
            }
        }
        assert(stats.count(Builtin::RangeCheck) + syscall_counts.count(Builtin::RangeCheck)
            <= u64::MAX);
        assert(stats.count(Builtin::Pedersen) + syscall_counts.count(Builtin::Pedersen)
            <= u64::MAX);
        assert(stats.count(Builtin::Bitwise) + syscall_counts.count(Builtin::Bitwise)
            <= u64::MAX);
        assert(stats.count(Builtin::EcOp) + syscall_counts.count(Builtin::EcOp) <= u64::MAX);
        assert(stats.count(Builtin::Poseidon) + syscall_counts.count(Builtin::Poseidon)
            <= u64::MAX);
        assert(stats.count(Builtin::SegmentArena) + syscall_counts.count(Builtin::SegmentArena)
            <= u64::MAX);
        assert(stats.count(Builtin::RangeCheck96) + syscall_counts.count(Builtin::RangeCheck96)
            <= u64::MAX);
        assert(stats.count(Builtin::AddMod) + syscall_counts.count(Builtin::AddMod) <= u64::MAX);
        assert(stats.count(Builtin::MulMod) + syscall_counts.count(Builtin::MulMod) <= u64::MAX);
    }
    let combined = BuiltinCounters {
        range_check: stats.range_check + syscall_counts.range_check,
        pedersen: stats.pedersen + syscall_counts.pedersen,
        ecdsa: syscall_counts.ecdsa,
        keccak: syscall_counts.keccak,
        bitwise: stats.bitwise + syscall_counts.bitwise,
        ec_op: stats.ec_op + syscall_counts.ec_op,
        poseidon: stats.poseidon + syscall_counts.poseidon,
        segment_arena: stats.segment_arena + syscall_counts.segment_arena,
        range_check96: stats.range_check96 + syscall_counts.range_check96,
        add_mod: stats.add_mod + syscall_counts.add_mod,
        mul_mod: stats.mul_mod + syscall_counts.mul_mod,
    };
    to_counter_map(&combined)
}

} // verus!
