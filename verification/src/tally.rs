//! The sum of the open slots that the places of a run report.

use vstd::prelude::*;

verus! {

/// The sum of a sequence of totals.
pub open spec fn sum_totals(totals: Seq<u32>) -> nat
    decreases totals.len(),
{
    if totals.len() == 0 {
        0
    } else {
        sum_totals(totals.drop_last()) + totals.last() as nat
    }
}

/// Adds one total to a running sum; `None` where the sum no longer fits.
pub fn add_total(sum: u32, total: u32) -> (next: Option<u32>)
    ensures
        match next {
            Some(n) => n == sum + total,
            None => sum + total > u32::MAX,
        },
{
    if total <= u32::MAX - sum {
        Some(sum + total)
    } else {
        None
    }
}

/// Sums the totals of several places or centers; `None` where the sum does
/// not fit in 32 bits.
pub fn combine_totals(totals: &Vec<u32>) -> (sum: Option<u32>)
    ensures
        match sum {
            Some(s) => s == sum_totals(totals@),
            None => sum_totals(totals@) > u32::MAX,
        },
{
    let n: usize = totals.len();
    let mut sum: u32 = 0;
    let mut i: usize = 0;
    while i < n
        invariant
            n == totals@.len(),
            i <= n,
            sum == sum_totals(totals@.subrange(0, i as int)),
        decreases n - i,
    {
        proof {
            assert(totals@.subrange(0, i + 1).drop_last() =~= totals@.subrange(0, i as int));
        }
        match add_total(sum, totals[i]) {
            Some(next) => {
                sum = next;
            },
            None => {
                proof {
                    lemma_sum_concat(
                        totals@.subrange(0, i + 1),
                        totals@.subrange(i + 1, n as int),
                    );
                    assert(totals@.subrange(0, i + 1) + totals@.subrange(i + 1, n as int)
                        =~= totals@);
                }
                return None;
            },
        }
        i += 1;
    }
    proof {
        assert(totals@.subrange(0, n as int) =~= totals@);
    }
    Some(sum)
}

/// The sum of two runs of totals, one after the other, is the sum of their
/// sums: totals may be summed in groups, and the groups then added.
pub proof fn lemma_sum_concat(a: Seq<u32>, b: Seq<u32>)
    ensures
        sum_totals(a + b) == sum_totals(a) + sum_totals(b),
    decreases b.len(),
{
    if b.len() == 0 {
        assert(a + b =~= a);
    } else {
        assert((a + b).drop_last() =~= a + b.drop_last());
        lemma_sum_concat(a, b.drop_last());
    }
}

/// Taking one total out of a sequence lowers the sum by that total.
pub proof fn lemma_sum_remove(s: Seq<u32>, i: int)
    requires
        0 <= i < s.len(),
    ensures
        sum_totals(s) == sum_totals(s.remove(i)) + s[i] as nat,
{
    let head = s.subrange(0, i);
    let tail = s.subrange(i + 1, s.len() as int);
    assert(s =~= head.push(s[i]) + tail);
    assert(s.remove(i) =~= head + tail);
    assert(head.push(s[i]).drop_last() =~= head);
    lemma_sum_concat(head.push(s[i]), tail);
    lemma_sum_concat(head, tail);
}

/// The sum does not depend on the order of the totals: two sequences that
/// hold the same totals, each as often as the other, have the same sum.
pub proof fn lemma_sum_any_order(a: Seq<u32>, b: Seq<u32>)
    requires
        a.to_multiset() == b.to_multiset(),
    ensures
        sum_totals(a) == sum_totals(b),
    decreases a.len(),
{
    broadcast use vstd::seq_lib::group_to_multiset_ensures;

    if a.len() == 0 {
        assert(b.to_multiset().len() == 0);
        assert(b.len() == 0);
    } else {
        let x = a.last();
        assert(a.to_multiset().contains(x));
        assert(b.contains(x));
        let j = choose|j: int| 0 <= j < b.len() && b[j] == x;
        assert(a.drop_last() =~= a.remove(a.len() - 1));
        assert(a.drop_last().to_multiset() =~= b.remove(j).to_multiset());
        lemma_sum_any_order(a.drop_last(), b.remove(j));
        lemma_sum_remove(b, j);
    }
}

} // verus!
