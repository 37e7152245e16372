//! Average true range: the arithmetic mean of a true-range sequence.
//!
//! The mean of an empty sequence is "no value", never zero, so a caller can
//! tell "not enough data yet" from "zero volatility". A mean of integer
//! values is rarely an integer, so it is returned as an exact sum together
//! with the count; the caller divides in whatever precision it wants.

use vstd::prelude::*;

use crate::candle::{all_in_bounds, Candle};
use crate::true_range::{true_ranges, true_ranges_spec};

verus! {

/// The sum of a sequence of integers.
pub open spec fn sum_seq(s: Seq<int>) -> int
    decreases s.len(),
{
    if s.len() == 0 {
        0
    } else {
        s[0] + sum_seq(s.drop_first())
    }
}

/// An exact arithmetic mean: the sum of the values and how many there were.
#[derive(Clone, Copy, Debug, PartialEq, Eq, Structural)]
pub struct Mean {
    pub sum: i128,
    pub count: usize,
}

/// The arithmetic mean of the values, or `None` when there are none.
pub fn average(values: &Vec<i64>) -> (r: Option<Mean>)
    ensures
        r is None <==> values@.len() == 0,
        r matches Some(m) ==> m.sum as int == sum_seq(values@.map_values(|v: i64| v as int))
            && m.count == values@.len(),
{
    if values.len() == 0 {
        return None;
    }
    let ghost all = values@.map_values(|v: i64| v as int);
    let mut acc: i128 = 0;
    let mut i: usize = 0;
    while i < values.len()
        invariant
            0 <= i <= values@.len(),
            all == values@.map_values(|v: i64| v as int),
            acc as int == sum_seq(all.subrange(0, i as int)),
            -(i as int) * 0x8000_0000_0000_0000 <= acc as int <= (i as int) * 0x8000_0000_0000_0000,
        decreases values@.len() - i,
    {
        proof {
            assert((i as int) * 0x8000_0000_0000_0000 <= (usize::MAX as int)
                * 0x8000_0000_0000_0000) by (nonlinear_arith)
                requires
                    0 <= i as int <= usize::MAX as int,
            ;
            assert(-((usize::MAX as int) * 0x8000_0000_0000_0000) <= -((i as int)
                * 0x8000_0000_0000_0000));
            assert(((i + 1) as int) * 0x8000_0000_0000_0000 == (i as int) * 0x8000_0000_0000_0000
                + 0x8000_0000_0000_0000) by (nonlinear_arith);
            lemma_sum_push(all.subrange(0, i as int), all[i as int]);
            assert(all.subrange(0, i as int).push(all[i as int]) =~= all.subrange(0, i + 1));
        }
        acc = acc + values[i] as i128;
        i += 1;
    }
    proof {
        assert(all.subrange(0, values@.len() as int) =~= all);
    }
    Some(Mean { sum: acc, count: values.len() })
}

/// Appending a value adds it to the sum.
pub proof fn lemma_sum_push(s: Seq<int>, x: int)
    ensures
        sum_seq(s.push(x)) == sum_seq(s) + x,
    decreases s.len(),
{
    if s.len() == 0 {
        assert(s.push(x).drop_first() =~= Seq::<int>::empty());
        assert(s.push(x)[0] == x);
        assert(sum_seq(s.push(x)) == x + sum_seq(Seq::<int>::empty()));
    } else {
        assert(s.push(x).drop_first() =~= s.drop_first().push(x));
        lemma_sum_push(s.drop_first(), x);
        assert(s.push(x)[0] == s[0]);
        assert(sum_seq(s.push(x)) == s[0] + sum_seq(s.drop_first().push(x)));
    }
}

/// Removing the value at `j` takes exactly that value off the sum.
pub proof fn lemma_sum_remove(s: Seq<int>, j: int)
    requires
        0 <= j < s.len(),
    ensures
        sum_seq(s) == s[j] + sum_seq(s.remove(j)),
    decreases s.len(),
{
    if j == 0 {
        assert(s.remove(0) =~= s.drop_first());
    } else {
        lemma_sum_remove(s.drop_first(), j - 1);
        assert(s.remove(j).drop_first() =~= s.drop_first().remove(j - 1));
        assert(s.remove(j)[0] == s[0]);
    }
}

/// The sum of a sequence depends only on which values it holds, with their
/// multiplicities — not on their order.
pub proof fn lemma_sum_permutation(s1: Seq<int>, s2: Seq<int>)
    requires
        s1.to_multiset() == s2.to_multiset(),
    ensures
        sum_seq(s1) == sum_seq(s2),
    decreases s1.len(),
{
    s1.to_multiset_ensures();
    s2.to_multiset_ensures();
    if s1.len() == 0 {
        assert(s2.len() == 0);
    } else {
        let x = s1[0];
        assert(s1.contains(x));
        assert(s2.to_multiset().count(x) > 0);
        assert(s2.contains(x));
        let j = choose|j: int| 0 <= j < s2.len() && s2[j] == x;
        assert(s1.remove(0) =~= s1.drop_first());
        assert(s1.drop_first().to_multiset() =~= s1.to_multiset().remove(x));
        assert(s2.remove(j).to_multiset() =~= s2.to_multiset().remove(x));
        lemma_sum_permutation(s1.drop_first(), s2.remove(j));
        lemma_sum_remove(s2, j);
    }
}

/// The mean is invariant under any reordering of the values: both the sum
/// and the count agree between the two orderings.
pub proof fn lemma_mean_order_invariant(s1: Seq<int>, s2: Seq<int>)
    requires
        s1.to_multiset() == s2.to_multiset(),
    ensures
        sum_seq(s1) == sum_seq(s2),
        s1.len() == s2.len(),
{
    s1.to_multiset_ensures();
    s2.to_multiset_ensures();
    lemma_sum_permutation(s1, s2);
}

/// The average true range of a candle sequence: the exact mean of its
/// true-range values, or `None` when fewer than two candles came in.
pub fn atr(candles: &Vec<Candle>) -> (r: Option<Mean>)
    requires
        all_in_bounds(candles@),
    ensures
        r is None <==> true_ranges_spec(candles@).len() == 0,
        r matches Some(m) ==> m.sum as int == sum_seq(true_ranges_spec(candles@)) && m.count
            == true_ranges_spec(candles@).len(),
{
    let trs = true_ranges(candles);
    proof {
        assert(trs@.map_values(|v: i64| v as int) =~= true_ranges_spec(candles@));
    }
    average(&trs)
}

} // verus!
