//! What holds of the deltas of every transaction, and of what is made of
//! them.

use crate::diffs::{
    account_diff, balance_diffs, covers, has_account, is_account, is_wsol, reported, take_up,
    DiffView, TokenBalanceView,
};
use crate::metrics::Metric;
use crate::process_swap::{
    all_tiny, any_zero, classified, swap_metric, swap_result, two_leg_metric, two_leg_result,
    SwapClass,
};
use crate::units::pow10;
use vstd::prelude::*;

verus! {

/// Whether no two diffs of a list are for the same account.
pub open spec fn distinct_accounts(diffs: Seq<DiffView>) -> bool {
    forall|i: int, j: int|
        0 <= i < j < diffs.len() ==> !((#[trigger] diffs[i]).mint == (#[trigger] diffs[j]).mint
            && diffs[i].owner == diffs[j].owner)
}

/// Whether each diff of a list from position `from` on is the delta of its
/// own account between `pre` and `post`.
pub open spec fn deltas_from(
    diffs: Seq<DiffView>,
    from: int,
    pre: Seq<TokenBalanceView>,
    post: Seq<TokenBalanceView>,
) -> bool {
    forall|i: int|
        from <= i < diffs.len() ==> #[trigger] diffs[i] == account_diff(
            pre,
            post,
            diffs[i].mint,
            diffs[i].owner,
        )
}

/// A list reports a balance for exactly the accounts that it names.
pub proof fn lemma_reported_iff_named(
    balances: Seq<TokenBalanceView>,
    mint: Seq<char>,
    owner: Seq<char>,
)
    ensures
        reported(balances, mint, owner) is Some <==> has_account(balances, mint, owner),
        reported(balances, mint, owner) matches Some(b) ==> is_account(b, mint, owner),
    decreases balances.len(),
{
    if balances.len() > 0 {
        let rest = balances.drop_last();
        lemma_reported_iff_named(rest, mint, owner);
        if is_account(balances.last(), mint, owner) {
            assert(is_account(balances[balances.len() - 1], mint, owner));
        } else {
            if has_account(rest, mint, owner) {
                let i = choose|i: int|
                    0 <= i < rest.len() && is_account(#[trigger] rest[i], mint, owner);
                assert(is_account(balances[i], mint, owner));
            }
            if has_account(balances, mint, owner) {
                let i = choose|i: int|
                    0 <= i < balances.len() && is_account(#[trigger] balances[i], mint, owner);
                assert(is_account(rest[i], mint, owner));
            }
        }
    }
}

/// What taking up a list of balances does to a list of diffs: the diffs that
/// were there stay in front, each new one is the delta of its own account,
/// the accounts covered are those covered before and those of the balances,
/// and no account comes to be covered twice.
pub proof fn lemma_take_up(
    diffs: Seq<DiffView>,
    balances: Seq<TokenBalanceView>,
    pre: Seq<TokenBalanceView>,
    post: Seq<TokenBalanceView>,
)
    ensures
        ({
            let out = take_up(diffs, balances, pre, post);
            &&& out.len() >= diffs.len()
            &&& out.take(diffs.len() as int) == diffs
            &&& deltas_from(out, diffs.len() as int, pre, post)
            &&& forall|mint: Seq<char>, owner: Seq<char>|
                covers(out, mint, owner) <==> covers(diffs, mint, owner) || has_account(
                    balances,
                    mint,
                    owner,
                )
            &&& distinct_accounts(diffs) ==> distinct_accounts(out)
        }),
    decreases balances.len(),
{
    let out = take_up(diffs, balances, pre, post);
    if balances.len() == 0 {
        assert(out.take(diffs.len() as int) =~= diffs);
    } else {
        let rest = balances.drop_last();
        let b = balances.last();
        let sofar = take_up(diffs, rest, pre, post);
        lemma_take_up(diffs, rest, pre, post);
        assert(out.take(diffs.len() as int) =~= sofar.take(diffs.len() as int));
        assert forall|mint: Seq<char>, owner: Seq<char>|
            covers(out, mint, owner) <==> covers(diffs, mint, owner) || has_account(
                balances,
                mint,
                owner,
            ) by {
            if covers(out, mint, owner) {
                let i = choose|i: int|
                    0 <= i < out.len() && (#[trigger] out[i]).mint == mint && out[i].owner
                        == owner;
                if i < sofar.len() {
                    assert(sofar[i].mint == mint && sofar[i].owner == owner);
                    assert(covers(sofar, mint, owner));
                    if has_account(rest, mint, owner) {
                        let k = choose|k: int|
                            0 <= k < rest.len() && is_account(#[trigger] rest[k], mint, owner);
                        assert(is_account(balances[k], mint, owner));
                    }
                } else {
                    assert(is_account(balances[balances.len() - 1], mint, owner));
                }
            }
            if covers(diffs, mint, owner) || has_account(balances, mint, owner) {
                if covers(sofar, mint, owner) {
                    let i = choose|i: int|
                        0 <= i < sofar.len() && (#[trigger] sofar[i]).mint == mint
                            && sofar[i].owner == owner;
                    assert(out[i].mint == mint && out[i].owner == owner);
                } else {
                    let k = choose|k: int|
                        0 <= k < balances.len() && is_account(#[trigger] balances[k], mint, owner);
                    if k < rest.len() {
                        assert(is_account(rest[k], mint, owner));
                    }
                    assert(is_account(b, mint, owner));
                    assert(out[sofar.len() as int].mint == mint && out[sofar.len() as int].owner
                        == owner);
                }
            }
        }
        if distinct_accounts(diffs) {
            assert forall|i: int, j: int| 0 <= i < j < out.len() implies !((#[trigger] out[i]).mint
                == (#[trigger] out[j]).mint && out[i].owner == out[j].owner) by {
                if j < sofar.len() {
                    assert(out[i] == sofar[i] && out[j] == sofar[j]);
                } else {
                    assert(out[i] == sofar[i]);
                }
            }
        }
    }
}

/// The deltas of a transaction hold one diff for each account that the
/// balances before or after it name, and none else; each diff is the delta
/// of its own account, in which a side that does not name the account
/// counts as zero.
pub proof fn lemma_one_diff_per_account(pre: Seq<TokenBalanceView>, post: Seq<TokenBalanceView>)
    ensures
        distinct_accounts(balance_diffs(pre, post)),
        forall|mint: Seq<char>, owner: Seq<char>|
            covers(balance_diffs(pre, post), mint, owner) <==> has_account(pre, mint, owner)
                || has_account(post, mint, owner),
        deltas_from(balance_diffs(pre, post), 0, pre, post),
        forall|mint: Seq<char>, owner: Seq<char>|
            !has_account(pre, mint, owner) ==> (#[trigger] account_diff(
                pre,
                post,
                mint,
                owner,
            )).pre_amount == 0,
        forall|mint: Seq<char>, owner: Seq<char>|
            !has_account(post, mint, owner) ==> (#[trigger] account_diff(
                pre,
                post,
                mint,
                owner,
            )).post_amount == 0,
{
    let none = Seq::<DiffView>::empty();
    let first = take_up(none, pre, pre, post);
    let out = balance_diffs(pre, post);
    lemma_take_up(none, pre, pre, post);
    lemma_take_up(first, post, pre, post);
    assert forall|mint: Seq<char>, owner: Seq<char>|
        covers(out, mint, owner) <==> has_account(pre, mint, owner) || has_account(
            post,
            mint,
            owner,
        ) by {
        assert(!covers(none, mint, owner));
    }
    assert forall|i: int| 0 <= i < out.len() implies #[trigger] out[i] == account_diff(
        pre,
        post,
        out[i].mint,
        out[i].owner,
    ) by {
        if i < first.len() {
            assert(out[i] == out.take(first.len() as int)[i]);
        }
    }
    assert forall|mint: Seq<char>, owner: Seq<char>|
        !has_account(pre, mint, owner) implies (#[trigger] account_diff(
            pre,
            post,
            mint,
            owner,
        )).pre_amount == 0 by {
        lemma_reported_iff_named(pre, mint, owner);
    }
    assert forall|mint: Seq<char>, owner: Seq<char>|
        !has_account(post, mint, owner) implies (#[trigger] account_diff(
            pre,
            post,
            mint,
            owner,
        )).post_amount == 0 by {
        lemma_reported_iff_named(post, mint, owner);
    }
}

/// Deltas that are all tiny are skipped as tiny: nothing is priced, and the
/// only counter raised is that of tiny swaps.
pub proof fn lemma_all_tiny_is_skipped(diffs: Seq<DiffView>, sol_price: nat)
    requires
        all_tiny(diffs),
    ensures
        classified(diffs) == SwapClass::Tiny,
        swap_result(diffs, sol_price) is None,
        swap_metric(diffs, sol_price) == Some(Metric::SkippedTinySwaps),
{
}

/// Deltas that are neither two nor three are never priced. Unless they are
/// all tiny or one of them is zero, they are counted as an unexpected number
/// of tokens.
pub proof fn lemma_unexpected_count_is_skipped(diffs: Seq<DiffView>, sol_price: nat)
    requires
        diffs.len() != 2,
        diffs.len() != 3,
    ensures
        classified(diffs) != SwapClass::TwoLeg,
        swap_result(diffs, sol_price) is None,
        !all_tiny(diffs) && !any_zero(diffs) ==> classified(diffs) == SwapClass::UnexpectedCount
            && swap_metric(diffs, sol_price) == Some(Metric::SkippedUnexpectedNumberOfTokens),
{
}

/// Three deltas are never priced, however well-formed each of them is.
/// Unless they are all tiny or one of them is zero, they are counted as a
/// multi-hop swap.
pub proof fn lemma_multi_hop_is_discarded(diffs: Seq<DiffView>, sol_price: nat)
    requires
        diffs.len() == 3,
    ensures
        swap_result(diffs, sol_price) is None,
        !all_tiny(diffs) && !any_zero(diffs) ==> classified(diffs) == SwapClass::MultiHop
            && swap_metric(diffs, sol_price) == Some(Metric::MultiHopSwap),
{
}

/// The SOL leg and the traded leg of two deltas of which one is in wrapped
/// SOL.
pub open spec fn legs_of(diffs: Seq<DiffView>) -> (DiffView, DiffView) {
    if is_wsol(diffs[0].mint) {
        (diffs[0], diffs[1])
    } else {
        (diffs[1], diffs[0])
    }
}

/// A swap is priced from a leg in wrapped SOL and a traded leg that both
/// moved. Its volume is the size of the SOL leg in whole SOL times the price
/// of SOL; its price is that volume divided by the size of the traded leg in
/// whole tokens, up to the ceiling; its mint is that of the traded leg; and
/// it is a buy exactly where the SOL leg grew.
pub proof fn lemma_price_is_volume_per_token(diffs: Seq<DiffView>, sol_price: nat)
    requires
        swap_result(diffs, sol_price) is Some,
    ensures
        ({
            let swap = swap_result(diffs, sol_price)->0;
            let (sol_leg, traded_leg) = legs_of(diffs);
            let exact = swap.swap_amount * pow10(traded_leg.decimals) / traded_leg.magnitude();
            &&& is_wsol(sol_leg.mint)
            &&& sol_leg.magnitude() > 0
            &&& traded_leg.magnitude() > 0
            &&& swap.swap_amount == sol_leg.magnitude() * sol_price / pow10(sol_leg.decimals)
            &&& swap.price == if exact <= u64::MAX {
                exact
            } else {
                u64::MAX as nat
            }
            &&& swap.coin_mint == traded_leg.mint
            &&& swap.is_buy == (sol_leg.post_amount > sol_leg.pre_amount)
        }),
{
    assert(!any_zero(diffs));
    assert(diffs[0].delta() != 0);
    assert(diffs[1].delta() != 0);
}

/// Whatever the deltas, a transaction yields a priced swap or raises exactly
/// one counter, never both and never neither; and a swap is priced only
/// from two deltas that are not all tiny and of which none is zero.
pub proof fn lemma_priced_or_counted(diffs: Seq<DiffView>, sol_price: nat)
    ensures
        swap_result(diffs, sol_price) is Some <==> swap_metric(diffs, sol_price) is None,
        swap_result(diffs, sol_price) is Some ==> diffs.len() == 2 && !all_tiny(diffs)
            && !any_zero(diffs),
        two_leg_result(diffs, sol_price) is Some <==> two_leg_metric(diffs, sol_price) is None,
{
}

} // verus!
