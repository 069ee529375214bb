//! From the balance deltas of one transaction to a priced swap, or to the
//! reason why there is none.

use crate::diffs::{
    balance_diffs, balance_views, diff_views, get_token_balance_diff, process_diffs, resolved,
    Diff, DiffView, DiffsError, DiffsResult, DiffsResultView, TokenBalance,
};
use crate::metrics::{Metric, SwapMetrics};
use crate::units::{pow10, pow10_checked};
use vstd::prelude::*;

verus! {

/// A delta counts as noise below one in `TINY_DIVISOR` of a whole token.
pub const TINY_DIVISOR: u64 = 100;

/// What the deltas of a transaction amount to.
#[derive(Debug, Clone, Copy, PartialEq, Eq, Structural)]
pub enum SwapClass {
    /// Every delta is noise: fees or rounding.
    Tiny,
    /// Some delta is zero: most likely an arbitrage whose legs offset.
    Zero,
    /// Neither two nor three deltas.
    UnexpectedCount,
    /// Three deltas: a trade through an intermediate token, which is counted
    /// and never priced.
    MultiHop,
    /// Two deltas, ready to be priced.
    TwoLeg,
}

/// Whether a delta is smaller than a hundredth of a whole token.
pub open spec fn is_tiny(d: DiffView) -> bool {
    d.magnitude() * TINY_DIVISOR < pow10(d.decimals)
}

/// Whether every delta is tiny. It is so of no deltas at all.
pub open spec fn all_tiny(diffs: Seq<DiffView>) -> bool {
    forall|i: int| 0 <= i < diffs.len() ==> is_tiny(#[trigger] diffs[i])
}

/// Whether some delta is zero.
pub open spec fn any_zero(diffs: Seq<DiffView>) -> bool {
    exists|i: int| 0 <= i < diffs.len() && (#[trigger] diffs[i]).delta() == 0
}

/// The class of a transaction's deltas, by the first rule that applies.
pub open spec fn classified(diffs: Seq<DiffView>) -> SwapClass {
    if all_tiny(diffs) {
        SwapClass::Tiny
    } else if any_zero(diffs) {
        SwapClass::Zero
    } else if diffs.len() != 2 && diffs.len() != 3 {
        SwapClass::UnexpectedCount
    } else if diffs.len() == 3 {
        SwapClass::MultiHop
    } else {
        SwapClass::TwoLeg
    }
}

/// The counter that a transaction's deltas raise, if any.
pub open spec fn swap_metric(diffs: Seq<DiffView>, sol_price: nat) -> Option<Metric> {
    match classified(diffs) {
        SwapClass::Tiny => Some(Metric::SkippedTinySwaps),
        SwapClass::Zero => Some(Metric::SkippedZeroSwaps),
        SwapClass::UnexpectedCount => Some(Metric::SkippedUnexpectedNumberOfTokens),
        SwapClass::MultiHop => Some(Metric::MultiHopSwap),
        SwapClass::TwoLeg => two_leg_metric(diffs, sol_price),
    }
}

/// The swap that a transaction's deltas yield, if any.
pub open spec fn swap_result(diffs: Seq<DiffView>, sol_price: nat) -> Option<DiffsResultView> {
    match classified(diffs) {
        SwapClass::TwoLeg => two_leg_result(diffs, sol_price),
        _ => None,
    }
}

/// The counter that pricing raises: one for each way in which it fails.
pub open spec fn two_leg_metric(diffs: Seq<DiffView>, sol_price: nat) -> Option<Metric> {
    match resolved(diffs, sol_price) {
        Ok(_) => None,
        Err(DiffsError::NonWsolsSwap) => Some(Metric::SkippedNonWsol),
        Err(DiffsError::ExpectedExactlyTwoTokenBalanceDiffs) => Some(
            Metric::SkippedUnexpectedNumberOfTokens,
        ),
    }
}

/// The swap that pricing yields, if it succeeds.
pub open spec fn two_leg_result(diffs: Seq<DiffView>, sol_price: nat) -> Option<DiffsResultView> {
    match resolved(diffs, sol_price) {
        Ok(v) => Some(v),
        Err(_) => None,
    }
}

/// The view of an optional priced swap.
pub open spec fn result_view(r: Option<DiffsResult>) -> Option<DiffsResultView> {
    match r {
        Some(v) => Some(v@),
        None => None,
    }
}

/// Whether the delta is smaller than a hundredth of a whole token.
pub fn is_tiny_diff(d: &Diff) -> (r: bool)
    ensures
        r == is_tiny(d@),
{
    let size: u64 = d.abs_diff();
    match pow10_checked(d.decimals) {
        Some(p) => (size as u128) * (TINY_DIVISOR as u128) < p,
        None => true,
    }
}

/// Classifies the deltas of one transaction.
pub fn classify(diffs: &Vec<Diff>) -> (class: SwapClass)
    ensures
        class == classified(diff_views(diffs@)),
{
    let ghost views = diff_views(diffs@);
    let mut tiny: bool = true;
    let mut zero: bool = false;
    let mut i: usize = 0;
    while i < diffs.len()
        invariant
            i <= diffs.len(),
            views == diff_views(diffs@),
            tiny == all_tiny(views.take(i as int)),
            zero == any_zero(views.take(i as int)),
        decreases diffs.len() - i,
    {
        let d = &diffs[i];
        let ghost before = views.take(i as int);
        let ghost after = views.take(i + 1);
        proof {
            assert(after[i as int] == d@);
            assert(forall|j: int| 0 <= j < i ==> after[j] == before[j]);
        }
        let t: bool = is_tiny_diff(d);
        let z: bool = d.pre_amount == d.post_amount;
        proof {
            if all_tiny(after) {
                assert forall|j: int| 0 <= j < before.len() implies is_tiny(
                    #[trigger] before[j],
                ) by {
                    assert(is_tiny(after[j]));
                }
                assert(is_tiny(after[i as int]));
            }
            if any_zero(before) {
                let j = choose|j: int| 0 <= j < before.len() && (#[trigger] before[j]).delta() == 0;
                assert(after[j].delta() == 0);
            }
            if z {
                assert(after[i as int].delta() == 0);
            }
            if any_zero(after) && !z {
                let j = choose|j: int| 0 <= j < after.len() && (#[trigger] after[j]).delta() == 0;
                assert(before[j].delta() == 0);
            }
        }
        tiny = tiny && t;
        zero = zero || z;
        i = i + 1;
    }
    assert(views.take(diffs.len() as int) =~= views);
    if tiny {
        SwapClass::Tiny
    } else if zero {
        SwapClass::Zero
    } else if diffs.len() != 2 && diffs.len() != 3 {
        SwapClass::UnexpectedCount
    } else if diffs.len() == 3 {
        SwapClass::MultiHop
    } else {
        SwapClass::TwoLeg
    }
}

/// Prices two legs. A failure of pricing is no error: it is counted, and
/// nothing is emitted.
pub fn process_two_token_swap(diffs: &Vec<Diff>, sol_price: u64, metrics: &mut SwapMetrics) -> (r:
    Option<DiffsResult>)
    ensures
        result_view(r) == two_leg_result(diff_views(diffs@), sol_price as nat),
        *final(metrics) == old(metrics).incremented_by(
            two_leg_metric(diff_views(diffs@), sol_price as nat),
        ),
{
    match process_diffs(diffs, sol_price) {
        Ok(result) => Some(result),
        Err(e) => {
            match e {
                DiffsError::NonWsolsSwap => {
                    metrics.increment(Metric::SkippedNonWsol);
                },
                DiffsError::ExpectedExactlyTwoTokenBalanceDiffs => {
                    metrics.increment(Metric::SkippedUnexpectedNumberOfTokens);
                },
            }
            None
        },
    }
}

/// Classifies the deltas of one transaction and prices them where they are
/// two legs. Every other class is counted and yields nothing.
pub fn process_token_diffs(diffs: &Vec<Diff>, sol_price: u64, metrics: &mut SwapMetrics) -> (r:
    Option<DiffsResult>)
    ensures
        result_view(r) == swap_result(diff_views(diffs@), sol_price as nat),
        *final(metrics) == old(metrics).incremented_by(
            swap_metric(diff_views(diffs@), sol_price as nat),
        ),
{
    match classify(diffs) {
        SwapClass::Tiny => {
            metrics.increment(Metric::SkippedTinySwaps);
            None
        },
        SwapClass::Zero => {
            metrics.increment(Metric::SkippedZeroSwaps);
            None
        },
        SwapClass::UnexpectedCount => {
            metrics.increment(Metric::SkippedUnexpectedNumberOfTokens);
            None
        },
        SwapClass::MultiHop => {
            metrics.increment(Metric::MultiHopSwap);
            None
        },
        SwapClass::TwoLeg => process_two_token_swap(diffs, sol_price, metrics),
    }
}

/// Takes the token balances before and after one transaction to a priced
/// swap, or counts why there is none.
///
/// `sol_price` is the dollar price of one SOL in units of `1 / USD_SCALE`
/// dollars.
pub fn process_swap(
    pre: &Vec<TokenBalance>,
    post: &Vec<TokenBalance>,
    sol_price: u64,
    metrics: &mut SwapMetrics,
) -> (r: Option<DiffsResult>)
    ensures
        result_view(r) == swap_result(
            balance_diffs(balance_views(pre@), balance_views(post@)),
            sol_price as nat,
        ),
        *final(metrics) == old(metrics).incremented_by(
            swap_metric(
                balance_diffs(balance_views(pre@), balance_views(post@)),
                sol_price as nat,
            ),
        ),
{
    let diffs = get_token_balance_diff(pre, post);
    process_token_diffs(&diffs, sol_price, metrics)
}

} // verus!
