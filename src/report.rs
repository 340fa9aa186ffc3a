//! The integer side of the quantile table: the running total of samples that
//! each row of the table shows.
use vstd::prelude::*;

verus! {

/// Sum of a sequence of counts.
pub open spec fn sum_of(s: Seq<u64>) -> nat
    decreases s.len(),
{
    if s.len() == 0 {
        0
    } else {
        sum_of(s.drop_last()) + s.last() as nat
    }
}

/// A prefix never sums to more than the whole.
pub proof fn lemma_prefix_sum_bounded(s: Seq<u64>, i: int)
    requires
        0 <= i <= s.len(),
    ensures
        sum_of(s.take(i)) <= sum_of(s),
    decreases s.len(),
{
    if i < s.len() {
        lemma_prefix_sum_bounded(s.drop_last(), i);
        assert(s.drop_last().take(i) =~= s.take(i));
    } else {
        assert(s.take(i) =~= s);
    }
}

/// The running totals of `counts`: entry `i` is the sum of the counts up to
/// and including entry `i`, so the last entry is the sum of them all.
pub fn running_totals(counts: &Vec<u64>) -> (r: Vec<u64>)
    requires
        sum_of(counts@) <= u64::MAX,
    ensures
        r.len() == counts.len(),
        forall|i: int| 0 <= i < r.len() ==> r[i] == sum_of(#[trigger] counts@.take(i + 1)),
        counts.len() > 0 ==> r[r.len() - 1] == sum_of(counts@),
{
    let mut r: Vec<u64> = Vec::new();
    let mut total: u64 = 0;
    let mut i: usize = 0;
    while i < counts.len()
        invariant
            i <= counts.len(),
            r.len() == i,
            total == sum_of(counts@.take(i as int)),
            sum_of(counts@) <= u64::MAX,
            forall|j: int| 0 <= j < i ==> r[j] == sum_of(#[trigger] counts@.take(j + 1)),
        decreases counts.len() - i,
    {
        proof {
            lemma_prefix_sum_bounded(counts@, i + 1);
            assert(counts@.take(i + 1).drop_last() =~= counts@.take(i as int));
        }
        total = total + counts[i];
        r.push(total);
        i = i + 1;
    }
    proof {
        if counts.len() > 0 {
            assert(counts@.take(counts.len() as int) =~= counts@);
            assert(r[r.len() - 1] == sum_of(counts@.take(r.len() - 1 + 1)));
        }
    }
    r
}

} // verus!
