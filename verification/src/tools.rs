//! What to do when a swap through the aggregator has failed.

use crate::balance::{parse_amount, parsed_amount};
use crate::text::{contains, contains_text, same_text};
use vstd::prelude::*;
use vstd::string::StringExecFns;

verus! {

/// The code by which the aggregator reports that the slippage was exceeded.
pub const SLIPPAGE_ERROR_CODE: &'static str = "0x1771";

/// The mint of wrapped SOL in lower case.
pub const WSOL_MINT_LOWERCASE: &'static str = "so11111111111111111111111111111111111111112";

/// The slippage allowed for a purchase in place of a failed swap, in basis
/// points.
pub const FALLBACK_SLIPPAGE_BPS: u16 = 100;

/// What follows on a failed swap through the aggregator.
#[derive(Debug, Clone, Copy, PartialEq, Eq, Structural)]
pub enum SwapFallback {
    /// The slippage was exceeded: the error stands.
    GiveUp,
    /// The amount is no number: the swap cannot be tried elsewhere.
    InvalidAmount,
    /// Buy the output mint on pump.fun for this many lamports.
    Buy { lamports: u64, slippage_bps: u16 },
    /// Sell this amount of the input mint on pump.fun.
    Sell { amount: u64 },
}

/// What the standard library's `str::to_lowercase` makes of a text.
pub uninterp spec fn lowercase_of(text: Seq<char>) -> Seq<char>;

/// What follows on a failed swap, given the input mint in lower case.
///
/// An error that names the slippage code stands. Otherwise the amount must
/// be a number; SOL as the input makes the swap a purchase for that many
/// lamports, any other input a sale of that amount.
pub open spec fn fallback_plan(
    jupiter_error: Seq<char>,
    lowered_input_mint: Seq<char>,
    amount: Seq<char>,
) -> SwapFallback {
    if contains_text(jupiter_error, SLIPPAGE_ERROR_CODE@) {
        SwapFallback::GiveUp
    } else {
        match parsed_amount(amount) {
            None => SwapFallback::InvalidAmount,
            Some(n) => if lowered_input_mint == WSOL_MINT_LOWERCASE@ {
                SwapFallback::Buy { lamports: n, slippage_bps: FALLBACK_SLIPPAGE_BPS }
            } else {
                SwapFallback::Sell { amount: n }
            },
        }
    }
}

/// The text of the error when both the swap and what was tried in its place
/// have failed.
pub open spec fn combined_error_text(jupiter_error: Seq<char>, pump_error: Seq<char>) -> Seq<
    char,
> {
    "jupiter error: "@ + jupiter_error + "\n pump.fun error: "@ + pump_error
}

/// Calls `str::to_lowercase` of the standard library. Trusted: the result is
/// the lower-case form that it returns for this text.
#[verifier::external_body]
fn lowercase(text: &str) -> (r: String)
    ensures
        r@ == lowercase_of(text@),
{
    text.to_lowercase()
}

/// What follows on a failed swap, given the input mint in lower case.
pub fn plan_fallback(jupiter_error: &str, lowered_input_mint: &str, amount: &str) -> (r:
    SwapFallback)
    ensures
        r == fallback_plan(jupiter_error@, lowered_input_mint@, amount@),
{
    if contains(jupiter_error, SLIPPAGE_ERROR_CODE) {
        return SwapFallback::GiveUp;
    }
    match parse_amount(amount) {
        None => SwapFallback::InvalidAmount,
        Some(n) => {
            if same_text(lowered_input_mint, WSOL_MINT_LOWERCASE) {
                SwapFallback::Buy { lamports: n, slippage_bps: FALLBACK_SLIPPAGE_BPS }
            } else {
                SwapFallback::Sell { amount: n }
            }
        },
    }
}

/// What follows on a swap of `amount` of `input_mint` that failed at the
/// aggregator with `jupiter_error`.
pub fn plan_swap_fallback(jupiter_error: &str, input_mint: &str, amount: &str) -> (r: SwapFallback)
    ensures
        r == fallback_plan(jupiter_error@, lowercase_of(input_mint@), amount@),
{
    let lowered = lowercase(input_mint);
    plan_fallback(jupiter_error, lowered.as_str(), amount)
}

/// The text of the error when both the swap and what was tried in its place
/// have failed.
pub fn combined_error(jupiter_error: &str, pump_error: &str) -> (r: String)
    ensures
        r@ == combined_error_text(jupiter_error@, pump_error@),
{
    String::from_str("jupiter error: ").concat(jupiter_error).concat("\n pump.fun error: ").concat(
        pump_error,
    )
}

} // verus!
