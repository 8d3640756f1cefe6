//! Mean, median and maximum of lead-time samples, from one ascending sort.
use vstd::prelude::*;
use vstd::relations::{sorted_by, total_ordering};

verus! {

/// The ascending order on samples.
pub open spec fn ascending() -> spec_fn(u64, u64) -> bool {
    |a: u64, b: u64| a <= b
}

/// The samples in ascending order.
pub open spec fn sorted_samples(s: Seq<u64>) -> Seq<u64> {
    s.sort_by(ascending())
}

/// The sum of the samples.
pub open spec fn sum(s: Seq<u64>) -> int
    decreases s.len(),
{
    if s.len() == 0 {
        0
    } else {
        sum(s.drop_last()) + s.last()
    }
}

/// Summary of a nonempty set of samples, in whole seconds.
#[derive(Clone, Copy, Debug, PartialEq, Eq, Structural)]
pub struct Statistics {
    /// How many samples there are.
    pub count: usize,
    /// Their sum.
    pub total: u128,
    /// Their mean, rounded down.
    pub mean: u64,
    /// The sample at position `count / 2` in ascending order (for an even
    /// count, the upper of the two middle samples).
    pub median: u64,
    /// The largest sample.
    pub max: u64,
}

/// Relies on slice::sort_unstable: it leaves the slice in ascending order and
/// holding the same elements.
#[verifier::external_body]
fn sort_ascending(v: &mut Vec<u64>)
    ensures
        sorted_by(final(v)@, ascending()),
        final(v)@.to_multiset() == old(v)@.to_multiset(),
{
    v.sort_unstable();
}

proof fn lemma_ascending_total()
    ensures
        total_ordering(ascending()),
{
    let leq = ascending();
    assert(vstd::relations::reflexive(leq));
    assert(vstd::relations::antisymmetric(leq));
    assert(vstd::relations::transitive(leq));
    assert(vstd::relations::strongly_connected(leq));
}

/// Every sorted sequence that holds the samples is their ascending order.
proof fn lemma_sorted_is_sorted_samples(v: Seq<u64>, s: Seq<u64>)
    requires
        sorted_by(v, ascending()),
        v.to_multiset() == s.to_multiset(),
    ensures
        v == sorted_samples(s),
{
    lemma_ascending_total();
    s.lemma_sort_by_ensures(ascending());
    vstd::seq_lib::lemma_sorted_unique(v, sorted_samples(s), ascending());
}

/// The largest sample is the last in ascending order: no sample exceeds it
/// and it is one of them.
pub proof fn lemma_max_is_largest(s: Seq<u64>)
    requires
        s.len() > 0,
    ensures
        sorted_samples(s).len() == s.len(),
        s.contains(sorted_samples(s).last()),
        forall|i: int| 0 <= i < s.len() ==> s[i] <= #[trigger] sorted_samples(s).last(),
{
    broadcast use vstd::seq_lib::group_to_multiset_ensures;

    lemma_ascending_total();
    s.lemma_sort_by_ensures(ascending());
    let t = sorted_samples(s);
    assert(t.len() == t.to_multiset().len());
    assert(s.len() == s.to_multiset().len());
    assert(t.contains(t[t.len() - 1]));
    assert(t.to_multiset().count(t.last()) > 0);
    assert forall|i: int| 0 <= i < s.len() implies s[i] <= #[trigger] sorted_samples(s).last() by {
        assert(s.contains(s[i]));
        assert(s.to_multiset().count(s[i]) > 0);
        assert(t.contains(s[i]));
        let k = choose|k: int| 0 <= k < t.len() && t[k] == s[i];
        if k < t.len() - 1 {
            assert((ascending())(t[k], t[t.len() - 1]));
        }
    }
}

/// Mean, median and maximum of the samples; `None` when there are none.
pub fn summarize(samples: Vec<u64>) -> (r: Option<Statistics>)
    ensures
        r is None <==> samples@.len() == 0,
        r matches Some(st) ==> st.count == samples@.len() && st.total == sum(samples@) && st.mean
            == sum(samples@) / (samples@.len() as int) && st.median == sorted_samples(samples@)[(
        samples@.len() / 2) as int] && st.max == sorted_samples(samples@).last() && samples@.contains(
        st.max) && forall|i: int| 0 <= i < samples@.len() ==> samples@[i] <= st.max,
{
    let n = samples.len();
    if n == 0 {
        return None;
    }
    let max_u64: u128 = 0xFFFF_FFFF_FFFF_FFFF;
    let mut total: u128 = 0;
    let mut i: usize = 0;
    while i < n
        invariant
            n == samples@.len(),
            i <= n,
            total == sum(samples@.subrange(0, i as int)),
            total <= i * max_u64,
            max_u64 == 0xFFFF_FFFF_FFFF_FFFF,
        decreases n - i,
    {
        let x = samples[i];
        assert(samples@.subrange(0, i + 1).drop_last() =~= samples@.subrange(0, i as int));
        proof {
            assert(i + 1 <= 0xFFFF_FFFF_FFFF_FFFF);
            assert(total + x <= (i + 1) * max_u64) by (nonlinear_arith)
                requires
                    total <= i * max_u64,
                    x <= max_u64,
            ;
            assert((i + 1) * max_u64 <= 0xFFFF_FFFF_FFFF_FFFF * 0xFFFF_FFFF_FFFF_FFFF) by (nonlinear_arith)
                requires
                    i + 1 <= 0xFFFF_FFFF_FFFF_FFFF,
                    max_u64 == 0xFFFF_FFFF_FFFF_FFFF,
            ;
        }
        total = total + x as u128;
        i = i + 1;
    }
    assert(samples@.subrange(0, n as int) =~= samples@);
    let count = n as u128;
    let mean_wide: u128 = total / count;
    proof {
        assert(mean_wide <= max_u64) by (nonlinear_arith)
            requires
                total <= count * max_u64,
                count > 0,
                mean_wide == total / count,
        ;
    }
    let mean = mean_wide as u64;
    let ghost original = samples@;
    let mut sorted = samples;
    sort_ascending(&mut sorted);
    proof {
        lemma_sorted_is_sorted_samples(sorted@, original);
        lemma_max_is_largest(original);
    }
    let median = sorted[n / 2];
    let max = sorted[n - 1];
    Some(Statistics { count: n, total, mean, median, max })
}

} // verus!
