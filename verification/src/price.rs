//! The price update that a priced swap is published as.

use crate::diffs::{DiffsResult, DiffsResultView};
use crate::metrics::{Metric, SwapMetrics};
use crate::units::{div_pow10, pow10};
use crate::text::{contains, contains_text};
use vstd::prelude::*;

verus! {

/// A token whose off-chain metadata names this site as its place of creation
/// was launched there.
pub const PUMP_FUN_MARKER: &'static str = "pump.fun";

/// What is known of a token besides its balances.
#[derive(Debug)]
pub struct TokenMetadata {
    pub name: String,
    /// Total supply in raw units.
    pub supply: u64,
    pub decimals: u8,
    /// Where the token was created, as its off-chain metadata tells it.
    pub created_on: Option<String>,
}

/// The transaction in which a swap was observed.
#[derive(Debug)]
pub struct TransactionInfo {
    pub signature: String,
    pub slot: u64,
    pub fee_payer: String,
}

/// One priced swap, as it is handed to the store, the broker and the cache.
/// Dollar values are in units of `1 / USD_SCALE` dollars.
#[derive(Debug)]
pub struct PriceUpdate {
    pub name: String,
    /// The mint of the traded token.
    pub pubkey: String,
    pub price: u64,
    pub market_cap: u128,
    /// Seconds since the Unix epoch.
    pub timestamp: u64,
    pub slot: u64,
    /// Dollar volume of the swap.
    pub swap_amount: u128,
    /// The transaction's fee payer.
    pub owner: String,
    pub signature: String,
    pub multi_hop: bool,
    pub is_buy: bool,
    pub is_pump: bool,
}

/// The mathematical content of a [`PriceUpdate`].
pub struct PriceUpdateView {
    pub name: Seq<char>,
    pub pubkey: Seq<char>,
    pub price: nat,
    pub market_cap: nat,
    pub timestamp: nat,
    pub slot: nat,
    pub swap_amount: nat,
    pub owner: Seq<char>,
    pub signature: Seq<char>,
    pub multi_hop: bool,
    pub is_buy: bool,
    pub is_pump: bool,
}

impl View for PriceUpdate {
    type V = PriceUpdateView;

    open spec fn view(&self) -> PriceUpdateView {
        PriceUpdateView {
            name: self.name@,
            pubkey: self.pubkey@,
            price: self.price as nat,
            market_cap: self.market_cap as nat,
            timestamp: self.timestamp as nat,
            slot: self.slot as nat,
            swap_amount: self.swap_amount as nat,
            owner: self.owner@,
            signature: self.signature@,
            multi_hop: self.multi_hop,
            is_buy: self.is_buy,
            is_pump: self.is_pump,
        }
    }
}

/// The market capitalisation of a token: its price times its supply in
/// whole tokens, rounded down.
pub open spec fn market_cap_of(price: nat, supply: nat, decimals: nat) -> nat {
    price * supply / pow10(decimals)
}

/// Whether a token's place of creation marks it as launched on pump.fun.
pub open spec fn is_pump_token(created_on: Option<String>) -> bool {
    match created_on {
        Some(site) => contains_text(site@, PUMP_FUN_MARKER@),
        None => false,
    }
}

/// The update that a priced swap of a known token is published as.
pub open spec fn price_update_of(
    swap: DiffsResultView,
    metadata: TokenMetadata,
    tx: TransactionInfo,
    timestamp: u64,
    multi_hop: bool,
) -> PriceUpdateView {
    PriceUpdateView {
        name: metadata.name@,
        pubkey: swap.coin_mint,
        price: swap.price,
        market_cap: market_cap_of(swap.price, metadata.supply as nat, metadata.decimals as nat),
        timestamp: timestamp as nat,
        slot: tx.slot as nat,
        swap_amount: swap.swap_amount,
        owner: tx.fee_payer@,
        signature: tx.signature@,
        multi_hop,
        is_buy: swap.is_buy,
        is_pump: is_pump_token(metadata.created_on),
    }
}

/// The market capitalisation of a token.
pub fn market_cap(price: u64, supply: u64, decimals: u8) -> (cap: u128)
    ensures
        cap == market_cap_of(price as nat, supply as nat, decimals as nat),
{
    assert(price * supply <= u128::MAX) by (nonlinear_arith)
        requires
            price <= u64::MAX,
            supply <= u64::MAX,
    ;
    div_pow10(price as u128 * supply as u128, decimals)
}

/// Whether a token's place of creation marks it as launched on pump.fun.
pub fn is_pump(created_on: &Option<String>) -> (r: bool)
    ensures
        r == is_pump_token(*created_on),
{
    match created_on {
        Some(site) => contains(site.as_str(), PUMP_FUN_MARKER),
        None => false,
    }
}

/// Builds the update for a priced swap. A token without metadata has no
/// update: the swap is counted as skipped.
pub fn make_price_update(
    swap: DiffsResult,
    metadata: Option<TokenMetadata>,
    tx: &TransactionInfo,
    timestamp: u64,
    multi_hop: bool,
    metrics: &mut SwapMetrics,
) -> (r: Option<PriceUpdate>)
    ensures
        match metadata {
            Some(m) => {
                &&& r matches Some(update)
                &&& update@ == price_update_of(swap@, m, *tx, timestamp, multi_hop)
                &&& *final(metrics) == *old(metrics)
            },
            None => {
                &&& r is None
                &&& *final(metrics) == old(metrics).incremented(Metric::SkippedNoMetadata)
            },
        },
{
    match metadata {
        Some(m) => {
            let cap: u128 = market_cap(swap.price, m.supply, m.decimals);
            let pump: bool = is_pump(&m.created_on);
            Some(
                PriceUpdate {
                    name: m.name,
                    pubkey: swap.coin_mint,
                    price: swap.price,
                    market_cap: cap,
                    timestamp,
                    slot: tx.slot,
                    swap_amount: swap.swap_amount,
                    owner: tx.fee_payer.clone(),
                    signature: tx.signature.clone(),
                    multi_hop,
                    is_buy: swap.is_buy,
                    is_pump: pump,
                },
            )
        },
        None => {
            metrics.increment(Metric::SkippedNoMetadata);
            None
        },
    }
}

} // verus!
