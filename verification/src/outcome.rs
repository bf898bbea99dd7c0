//! Outcomes: the resource-stock effects produced by completed actions, and
//! the arithmetic of applying batches of them to the shared apple stock.
//!
//! The stock is an `i64` updated with wrapping addition, so applying a batch
//! of outcomes amounts to adding its net delta — in particular, the order the
//! members of one batch are consumed in never matters.

use vstd::arithmetic::div_mod::{lemma_fundamental_div_mod, lemma_mod_bound};
use vstd::prelude::*;
use vstd::wrapping::i64_specs;

verus! {

/// A resource-stock effect produced by a completed action: either no effect,
/// or a signed change to the shared apple stock.
#[derive(Clone, Copy, PartialEq, Eq, Structural, Debug)]
pub enum Outcome {
    StatusQuo,
    Apples { delta: i64 },
}

impl Outcome {
    /// The change this outcome makes to the apple stock.
    pub open spec fn delta(self) -> i64 {
        match self {
            Outcome::StatusQuo => 0,
            Outcome::Apples { delta } => delta,
        }
    }
}

impl Default for Outcome {
    /// The neutral outcome.
    fn default() -> (r: Self)
        ensures
            r == Outcome::StatusQuo,
    {
        Outcome::StatusQuo
    }
}

/// The stock after one outcome is applied to it.
pub open spec fn apply_outcome(stock: i64, o: Outcome) -> i64 {
    i64_specs::wrapping_add(stock, o.delta())
}

/// The stock after a batch of outcomes is applied to it in order.
pub open spec fn apply_all(stock: i64, os: Seq<Outcome>) -> i64
    decreases os.len(),
{
    if os.len() == 0 {
        stock
    } else {
        apply_outcome(apply_all(stock, os.drop_last()), os.last())
    }
}

/// The net stock change of a batch of outcomes.
pub open spec fn sum_deltas(os: Seq<Outcome>) -> int
    decreases os.len(),
{
    if os.len() == 0 {
        0
    } else {
        sum_deltas(os.drop_last()) + os.last().delta()
    }
}

/// Cropping a value that already lies in `i64` range leaves it unchanged.
proof fn lemma_crop_identity(x: int)
    requires
        i64::MIN <= x <= i64::MAX,
    ensures
        i64_specs::signed_crop(x) == x,
{
    let r = 0x1_0000_0000_0000_0000int;
    lemma_mod_bound(x, r);
    lemma_fundamental_div_mod(x, r);
}

/// A wrapping add on an already-cropped value equals cropping the plain sum.
proof fn lemma_crop_shift(x: int, d: i64)
    ensures
        i64_specs::wrapping_add(i64_specs::signed_crop(x), d) == i64_specs::signed_crop(x + d),
{
    let r = 0x1_0000_0000_0000_0000int;
    lemma_mod_bound(x, r);
    lemma_fundamental_div_mod(x, r);
    lemma_mod_bound(x + d, r);
    lemma_fundamental_div_mod(x + d, r);
}

/// Applying a batch of outcomes one at a time equals adding the batch's net
/// delta to the stock and wrapping the result into `i64` range once.
pub proof fn lemma_apply_all_is_sum(stock: i64, os: Seq<Outcome>)
    ensures
        apply_all(stock, os) == i64_specs::signed_crop(stock + sum_deltas(os)),
    decreases os.len(),
{
    if os.len() == 0 {
        lemma_crop_identity(stock as int);
    } else {
        lemma_apply_all_is_sum(stock, os.drop_last());
        lemma_crop_shift(stock + sum_deltas(os.drop_last()), os.last().delta());
    }
}

/// Removing one outcome from a batch removes exactly its delta from the net.
proof fn lemma_sum_deltas_remove(os: Seq<Outcome>, i: int)
    requires
        0 <= i < os.len(),
    ensures
        sum_deltas(os) == sum_deltas(os.remove(i)) + os[i].delta(),
    decreases os.len(),
{
    if i == os.len() - 1 {
        assert(os.remove(i) =~= os.drop_last());
    } else {
        assert(os.remove(i).drop_last() =~= os.drop_last().remove(i));
        lemma_sum_deltas_remove(os.drop_last(), i);
    }
}

/// The net delta of a batch depends only on which outcomes it holds, not on
/// the order they stand in.
pub proof fn lemma_sum_deltas_permutation(s1: Seq<Outcome>, s2: Seq<Outcome>)
    requires
        s1.to_multiset() == s2.to_multiset(),
    ensures
        sum_deltas(s1) == sum_deltas(s2),
    decreases s1.len(),
{
    broadcast use vstd::seq_lib::group_to_multiset_ensures;

    s1.to_multiset_ensures();
    s2.to_multiset_ensures();
    if s1.len() == 0 {
        assert(s2.len() == 0);
    } else {
        let x = s1.last();
        assert(s1.contains(x)) by {
            assert(s1[s1.len() - 1] == x);
        }
        assert(s1.to_multiset().count(x) > 0);
        assert(s2.to_multiset().count(x) > 0);
        assert(s2.contains(x));
        let j = choose|j: int| 0 <= j < s2.len() && s2[j] == x;
        assert(s1.remove(s1.len() - 1) =~= s1.drop_last());
        assert(s1.drop_last().to_multiset() == s1.to_multiset().remove(x));
        assert(s2.remove(j).to_multiset() == s2.to_multiset().remove(x));
        lemma_sum_deltas_permutation(s1.drop_last(), s2.remove(j));
        lemma_sum_deltas_remove(s2, j);
    }
}

/// Applying one batch of resolved outcomes leaves the same stock whatever
/// order the batch's members are consumed in.
pub proof fn lemma_apply_all_permutation(stock: i64, s1: Seq<Outcome>, s2: Seq<Outcome>)
    requires
        s1.to_multiset() == s2.to_multiset(),
    ensures
        apply_all(stock, s1) == apply_all(stock, s2),
{
    lemma_apply_all_is_sum(stock, s1);
    lemma_apply_all_is_sum(stock, s2);
    lemma_sum_deltas_permutation(s1, s2);
}

} // verus!
