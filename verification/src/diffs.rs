//! Token balances before and after a transaction, and the per-account
//! deltas between them.

use crate::balance::{parse_amount, parsed_amount};
use crate::units::{div_pow10, lemma_pow10_positive, pow10, pow10_checked};
use vstd::prelude::*;

verus! {

/// The mint of wrapped SOL, the token in which swaps are denominated.
pub const WSOL_MINT_KEY_STR: &'static str = "So11111111111111111111111111111111111111112";

/// One token account's balance as a transaction reports it.
#[derive(Debug)]
pub struct TokenBalance {
    pub mint: String,
    pub owner: String,
    /// Raw amount, in units of `10^-decimals` tokens.
    pub amount: u64,
    pub decimals: u8,
}

/// The mathematical content of a [`TokenBalance`].
pub struct TokenBalanceView {
    pub mint: Seq<char>,
    pub owner: Seq<char>,
    pub amount: nat,
    pub decimals: nat,
}

impl View for TokenBalance {
    type V = TokenBalanceView;

    open spec fn view(&self) -> TokenBalanceView {
        TokenBalanceView {
            mint: self.mint@,
            owner: self.owner@,
            amount: self.amount as nat,
            decimals: self.decimals as nat,
        }
    }
}

/// The change of one token account's balance over a transaction.
#[derive(Debug)]
pub struct Diff {
    pub mint: String,
    pub owner: String,
    /// Raw amount before the transaction; zero where the account was absent.
    pub pre_amount: u64,
    /// Raw amount after the transaction; zero where the account was absent.
    pub post_amount: u64,
    pub decimals: u8,
}

/// The mathematical content of a [`Diff`].
pub struct DiffView {
    pub mint: Seq<char>,
    pub owner: Seq<char>,
    pub pre_amount: nat,
    pub post_amount: nat,
    pub decimals: nat,
}

impl DiffView {
    /// The balance change in raw units: what came after minus what was before.
    pub open spec fn delta(self) -> int {
        self.post_amount - self.pre_amount
    }

    /// The size of the balance change in raw units.
    pub open spec fn magnitude(self) -> nat {
        if self.post_amount >= self.pre_amount {
            (self.post_amount - self.pre_amount) as nat
        } else {
            (self.pre_amount - self.post_amount) as nat
        }
    }
}

impl View for Diff {
    type V = DiffView;

    open spec fn view(&self) -> DiffView {
        DiffView {
            mint: self.mint@,
            owner: self.owner@,
            pre_amount: self.pre_amount as nat,
            post_amount: self.post_amount as nat,
            decimals: self.decimals as nat,
        }
    }
}

impl Diff {
    /// The balance change in raw units.
    pub fn diff(&self) -> (d: i128)
        ensures
            d == self@.delta(),
    {
        self.post_amount as i128 - self.pre_amount as i128
    }

    /// The size of the balance change in raw units.
    pub fn abs_diff(&self) -> (m: u64)
        ensures
            m == self@.magnitude(),
    {
        if self.post_amount >= self.pre_amount {
            self.post_amount - self.pre_amount
        } else {
            self.pre_amount - self.post_amount
        }
    }
}

impl TokenBalance {
    /// The balance that a transaction reports with its raw amount as text;
    /// `None` where the text is no amount.
    pub fn from_reported(mint: &str, owner: &str, amount: &str, decimals: u8) -> (r: Option<
        TokenBalance,
    >)
        ensures
            match parsed_amount(amount@) {
                Some(n) => r matches Some(b) && b@ == (TokenBalanceView {
                    mint: mint@,
                    owner: owner@,
                    amount: n as nat,
                    decimals: decimals as nat,
                }),
                None => r is None,
            },
    {
        match parse_amount(amount) {
            Some(n) => Some(
                TokenBalance { mint: mint.to_owned(), owner: owner.to_owned(), amount: n, decimals },
            ),
            None => None,
        }
    }
}

/// The views of a list of balances, in order.
pub open spec fn balance_views(balances: Seq<TokenBalance>) -> Seq<TokenBalanceView> {
    balances.map_values(|b: TokenBalance| b@)
}

/// The views of a list of diffs, in order.
pub open spec fn diff_views(diffs: Seq<Diff>) -> Seq<DiffView> {
    diffs.map_values(|d: Diff| d@)
}

/// Whether a balance belongs to the account `(mint, owner)`.
pub open spec fn is_account(b: TokenBalanceView, mint: Seq<char>, owner: Seq<char>) -> bool {
    b.mint == mint && b.owner == owner
}

/// Whether some balance of the list belongs to the account `(mint, owner)`.
pub open spec fn has_account(
    balances: Seq<TokenBalanceView>,
    mint: Seq<char>,
    owner: Seq<char>,
) -> bool {
    exists|i: int| 0 <= i < balances.len() && is_account(#[trigger] balances[i], mint, owner)
}

/// The balance that a list reports for an account: its last entry for that
/// account, or `None` where it has none.
pub open spec fn reported(
    balances: Seq<TokenBalanceView>,
    mint: Seq<char>,
    owner: Seq<char>,
) -> Option<TokenBalanceView>
    decreases balances.len(),
{
    if balances.len() == 0 {
        None
    } else if is_account(balances.last(), mint, owner) {
        Some(balances.last())
    } else {
        reported(balances.drop_last(), mint, owner)
    }
}

/// The delta of one account between two balance lists. A side on which the
/// account is missing counts as zero.
pub open spec fn account_diff(
    pre: Seq<TokenBalanceView>,
    post: Seq<TokenBalanceView>,
    mint: Seq<char>,
    owner: Seq<char>,
) -> DiffView {
    let before = reported(pre, mint, owner);
    let after = reported(post, mint, owner);
    DiffView {
        mint,
        owner,
        pre_amount: match before {
            Some(b) => b.amount,
            None => 0,
        },
        post_amount: match after {
            Some(b) => b.amount,
            None => 0,
        },
        decimals: match after {
            Some(b) => b.decimals,
            None => match before {
                Some(b) => b.decimals,
                None => 0,
            },
        },
    }
}

/// Whether one of the diffs is for the account `(mint, owner)`.
pub open spec fn covers(diffs: Seq<DiffView>, mint: Seq<char>, owner: Seq<char>) -> bool {
    exists|i: int|
        0 <= i < diffs.len() && (#[trigger] diffs[i]).mint == mint && diffs[i].owner == owner
}

/// The diffs after the accounts of `balances` have been taken up, in order,
/// into `diffs`: an account that `diffs` covers already adds nothing, a new
/// one adds its delta between `pre` and `post` at the end.
pub open spec fn take_up(
    diffs: Seq<DiffView>,
    balances: Seq<TokenBalanceView>,
    pre: Seq<TokenBalanceView>,
    post: Seq<TokenBalanceView>,
) -> Seq<DiffView>
    decreases balances.len(),
{
    if balances.len() == 0 {
        diffs
    } else {
        let sofar = take_up(diffs, balances.drop_last(), pre, post);
        let b = balances.last();
        if covers(sofar, b.mint, b.owner) {
            sofar
        } else {
            sofar.push(account_diff(pre, post, b.mint, b.owner))
        }
    }
}

/// The deltas between two balance lists: one per account that either list
/// names, in the order in which the accounts first appear, those of `pre`
/// before those of `post`.
pub open spec fn balance_diffs(
    pre: Seq<TokenBalanceView>,
    post: Seq<TokenBalanceView>,
) -> Seq<DiffView> {
    take_up(take_up(Seq::empty(), pre, pre, post), post, pre, post)
}

/// The last entry of `balances` for the account of `key`, if there is one.
fn find_reported<'a>(balances: &'a Vec<TokenBalance>, key: &TokenBalance) -> (r: Option<
    &'a TokenBalance,
>)
    ensures
        match r {
            Some(b) => reported(balance_views(balances@), key.mint@, key.owner@) == Some(b@),
            None => reported(balance_views(balances@), key.mint@, key.owner@) is None,
        },
{
    let ghost views = balance_views(balances@);
    let mut i: usize = balances.len();
    assert(views.take(i as int) =~= views);
    while i > 0
        invariant
            i <= balances.len(),
            views == balance_views(balances@),
            reported(views, key.mint@, key.owner@) == reported(
                views.take(i as int),
                key.mint@,
                key.owner@,
            ),
        decreases i,
    {
        let b = &balances[i - 1];
        proof {
            let prefix = views.take(i as int);
            assert(prefix.last() == b@);
            assert(prefix.drop_last() =~= views.take(i - 1));
        }
        if b.mint == key.mint && b.owner == key.owner {
            return Some(b);
        }
        i = i - 1;
    }
    proof {
        assert(views.take(0).len() == 0);
    }
    None
}

/// Whether one of `diffs` is for the account of `key`.
fn is_covered(diffs: &Vec<Diff>, key: &TokenBalance) -> (r: bool)
    ensures
        r == covers(diff_views(diffs@), key.mint@, key.owner@),
{
    let mut i: usize = 0;
    while i < diffs.len()
        invariant
            i <= diffs.len(),
            forall|j: int|
                0 <= j < i ==> !((#[trigger] diff_views(diffs@)[j]).mint == key.mint@
                    && diff_views(diffs@)[j].owner == key.owner@),
        decreases diffs.len() - i,
    {
        if diffs[i].mint == key.mint && diffs[i].owner == key.owner {
            assert(diff_views(diffs@)[i as int].mint == key.mint@);
            return true;
        }
        i = i + 1;
    }
    false
}

/// Takes the accounts of `balances` up into `diffs`.
fn take_up_balances(
    diffs: &mut Vec<Diff>,
    balances: &Vec<TokenBalance>,
    pre: &Vec<TokenBalance>,
    post: &Vec<TokenBalance>,
)
    ensures
        diff_views(final(diffs)@) == take_up(
            diff_views(old(diffs)@),
            balance_views(balances@),
            balance_views(pre@),
            balance_views(post@),
        ),
{
    let ghost start = diff_views(diffs@);
    let ghost views = balance_views(balances@);
    let ghost pre_views = balance_views(pre@);
    let ghost post_views = balance_views(post@);
    let mut i: usize = 0;
    assert(views.take(0).len() == 0);
    while i < balances.len()
        invariant
            i <= balances.len(),
            views == balance_views(balances@),
            pre_views == balance_views(pre@),
            post_views == balance_views(post@),
            diff_views(diffs@) == take_up(start, views.take(i as int), pre_views, post_views),
        decreases balances.len() - i,
    {
        let b = &balances[i];
        proof {
            let prefix = views.take(i + 1);
            assert(prefix.last() == b@);
            assert(prefix.drop_last() =~= views.take(i as int));
        }
        if !is_covered(diffs, b) {
            let before = find_reported(pre, b);
            let after = find_reported(post, b);
            let pre_amount: u64 = match before {
                Some(x) => x.amount,
                None => 0,
            };
            let post_amount: u64 = match after {
                Some(x) => x.amount,
                None => 0,
            };
            let decimals: u8 = match after {
                Some(x) => x.decimals,
                None => match before {
                    Some(x) => x.decimals,
                    None => 0,
                },
            };
            let ghost sofar = diff_views(diffs@);
            let d = Diff {
                mint: b.mint.clone(),
                owner: b.owner.clone(),
                pre_amount,
                post_amount,
                decimals,
            };
            assert(d@ == account_diff(pre_views, post_views, b@.mint, b@.owner));
            diffs.push(d);
            assert(diff_views(diffs@) =~= sofar.push(d@));
        }
        i = i + 1;
    }
    assert(views.take(balances.len() as int) =~= views);
}

/// The per-account deltas between the token balances before and after a
/// transaction. Nothing is filtered out.
pub fn get_token_balance_diff(pre: &Vec<TokenBalance>, post: &Vec<TokenBalance>) -> (diffs: Vec<
    Diff,
>)
    ensures
        diff_views(diffs@) == balance_diffs(balance_views(pre@), balance_views(post@)),
{
    let mut diffs: Vec<Diff> = Vec::new();
    assert(diff_views(diffs@) =~= Seq::<DiffView>::empty());
    take_up_balances(&mut diffs, pre, pre, post);
    take_up_balances(&mut diffs, post, pre, post);
    diffs
}

/// Why two legs could not be priced.
#[derive(Debug, Clone, Copy, PartialEq, Eq, Structural)]
pub enum DiffsError {
    /// Neither leg is in wrapped SOL.
    NonWsolsSwap,
    /// The diffs are not exactly two.
    ExpectedExactlyTwoTokenBalanceDiffs,
}

/// A priced two-leg swap.
#[derive(Debug)]
pub struct DiffsResult {
    /// Dollars per whole traded token, in units of `1 / USD_SCALE` dollars.
    pub price: u64,
    /// Dollar volume of the swap, in units of `1 / USD_SCALE` dollars.
    pub swap_amount: u128,
    /// The mint of the token traded against SOL.
    pub coin_mint: String,
    pub is_buy: bool,
}

/// The mathematical content of a [`DiffsResult`].
pub struct DiffsResultView {
    pub price: nat,
    pub swap_amount: nat,
    pub coin_mint: Seq<char>,
    pub is_buy: bool,
}

impl View for DiffsResult {
    type V = DiffsResultView;

    open spec fn view(&self) -> DiffsResultView {
        DiffsResultView {
            price: self.price as nat,
            swap_amount: self.swap_amount as nat,
            coin_mint: self.coin_mint@,
            is_buy: self.is_buy,
        }
    }
}

/// The view of what pricing returned.
pub open spec fn outcome_view(r: Result<DiffsResult, DiffsError>) -> Result<
    DiffsResultView,
    DiffsError,
> {
    match r {
        Ok(v) => Ok(v@),
        Err(e) => Err(e),
    }
}

/// Whether a mint is that of wrapped SOL.
pub open spec fn is_wsol(mint: Seq<char>) -> bool {
    mint == WSOL_MINT_KEY_STR@
}

/// The dollar volume of a swap: the size of the SOL leg's delta, in whole
/// SOL, times the dollar price of one SOL, rounded down.
pub open spec fn usd_volume(sol_leg: DiffView, sol_price: nat) -> nat {
    sol_leg.magnitude() * sol_price / pow10(sol_leg.decimals)
}

/// The highest price that can be told.
pub open spec fn price_ceiling() -> nat {
    u64::MAX as nat
}

/// The dollar price of one whole traded token: the dollar volume divided by
/// the size of the traded leg's delta in whole tokens, rounded down. A price
/// above the ceiling, and that of a leg that did not move, is the ceiling.
pub open spec fn unit_price(volume: nat, traded_leg: DiffView) -> nat {
    if traded_leg.magnitude() == 0 {
        price_ceiling()
    } else {
        let exact = volume * pow10(traded_leg.decimals) / traded_leg.magnitude();
        if exact <= price_ceiling() {
            exact
        } else {
            price_ceiling()
        }
    }
}

/// The swap that a SOL leg and a traded leg make at a given price of SOL.
/// It is a buy where the SOL leg's balance grew.
pub open spec fn priced_swap(sol_leg: DiffView, traded_leg: DiffView, sol_price: nat)
    -> DiffsResultView {
    DiffsResultView {
        price: unit_price(usd_volume(sol_leg, sol_price), traded_leg),
        swap_amount: usd_volume(sol_leg, sol_price),
        coin_mint: traded_leg.mint,
        is_buy: sol_leg.delta() > 0,
    }
}

/// What pricing makes of a list of diffs. Of two legs in wrapped SOL the
/// first is the SOL leg.
pub open spec fn resolved(diffs: Seq<DiffView>, sol_price: nat) -> Result<
    DiffsResultView,
    DiffsError,
> {
    if diffs.len() != 2 {
        Err(DiffsError::ExpectedExactlyTwoTokenBalanceDiffs)
    } else if is_wsol(diffs[0].mint) {
        Ok(priced_swap(diffs[0], diffs[1], sol_price))
    } else if is_wsol(diffs[1].mint) {
        Ok(priced_swap(diffs[1], diffs[0], sol_price))
    } else {
        Err(DiffsError::NonWsolsSwap)
    }
}

/// Whether `mint` is the mint of wrapped SOL.
pub fn is_wsol_mint(mint: &String) -> (r: bool)
    ensures
        r == is_wsol(mint@),
{
    let wsol = WSOL_MINT_KEY_STR.to_owned();
    *mint == wsol
}

/// The dollar volume of a swap with the given SOL leg.
pub fn swap_volume(sol_leg: &Diff, sol_price: u64) -> (v: u128)
    ensures
        v == usd_volume(sol_leg@, sol_price as nat),
{
    let size: u64 = sol_leg.abs_diff();
    assert(size * sol_price <= u128::MAX) by (nonlinear_arith)
        requires
            size <= u64::MAX,
            sol_price <= u64::MAX,
    ;
    let product: u128 = size as u128 * sol_price as u128;
    div_pow10(product, sol_leg.decimals)
}

/// The dollar price of one whole token of the traded leg.
pub fn price_per_token(volume: u128, traded_leg: &Diff) -> (p: u64)
    ensures
        p == unit_price(volume as nat, traded_leg@),
{
    let size: u64 = traded_leg.abs_diff();
    if size == 0 {
        return u64::MAX;
    }
    if volume == 0 {
        assert(0 * pow10(traded_leg.decimals as nat) == 0);
        return 0;
    }
    let ghost scale = pow10(traded_leg.decimals as nat);
    let scaled: Option<u128> = match pow10_checked(traded_leg.decimals) {
        Some(p) => volume.checked_mul(p),
        None => None,
    };
    match scaled {
        Some(n) => {
            let exact: u128 = n / size as u128;
            if exact <= u64::MAX as u128 {
                exact as u64
            } else {
                u64::MAX
            }
        },
        None => {
            proof {
                lemma_pow10_positive(traded_leg.decimals as nat);
                let n = volume as int * scale as int;
                assert(n > u128::MAX) by (nonlinear_arith)
                    requires
                        n == volume as int * scale as int,
                        volume >= 1,
                        scale >= 1,
                        volume as int * scale as int > u128::MAX || scale > u128::MAX,
                ;
                assert(n / (size as int) > u64::MAX) by (nonlinear_arith)
                    requires
                        n > u128::MAX,
                        0 < size <= u64::MAX,
                ;
            }
            u64::MAX
        },
    }
}

/// Prices a two-leg swap against SOL.
///
/// The list must hold exactly two diffs, one of them in wrapped SOL; of two
/// such legs the first counts as the SOL leg. `sol_price` is the dollar
/// price of one SOL in units of `1 / USD_SCALE` dollars.
pub fn process_diffs(diffs: &Vec<Diff>, sol_price: u64) -> (r: Result<DiffsResult, DiffsError>)
    ensures
        outcome_view(r) == resolved(diff_views(diffs@), sol_price as nat),
{
    if diffs.len() != 2 {
        return Err(DiffsError::ExpectedExactlyTwoTokenBalanceDiffs);
    }
    assert(diff_views(diffs@)[0] == diffs@[0]@);
    assert(diff_views(diffs@)[1] == diffs@[1]@);
    let (sol_leg, traded_leg) = if is_wsol_mint(&diffs[0].mint) {
        (&diffs[0], &diffs[1])
    } else if is_wsol_mint(&diffs[1].mint) {
        (&diffs[1], &diffs[0])
    } else {
        return Err(DiffsError::NonWsolsSwap);
    };
    let swap_amount: u128 = swap_volume(sol_leg, sol_price);
    let price: u64 = price_per_token(swap_amount, traded_leg);
    Ok(
        DiffsResult {
            price,
            swap_amount,
            coin_mint: traded_leg.mint.clone(),
            is_buy: sol_leg.post_amount > sol_leg.pre_amount,
        },
    )
}

} // verus!
