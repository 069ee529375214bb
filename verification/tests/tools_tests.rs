use listen_core::tools::{
    combined_error, plan_fallback, plan_swap_fallback, SwapFallback, FALLBACK_SLIPPAGE_BPS,
    SLIPPAGE_ERROR_CODE, WSOL_MINT_LOWERCASE,
};

const WSOL: &str = "So11111111111111111111111111111111111111112";
const OTHER: &str = "G6ZaVuWEuGtFRooaiHQWjDzoCzr2f7BWr3PhsQRnjSTE";

#[test]
fn constants() {
    assert_eq!(SLIPPAGE_ERROR_CODE, "0x1771");
    assert_eq!(WSOL_MINT_LOWERCASE, WSOL.to_lowercase());
    assert_eq!(FALLBACK_SLIPPAGE_BPS, 100);
}

#[test]
fn a_slippage_error_stands() {
    let error = "Transaction failed: custom program error: 0x1771";
    assert_eq!(plan_swap_fallback(error, WSOL, "1000"), SwapFallback::GiveUp);
    assert_eq!(plan_swap_fallback(error, OTHER, "1000"), SwapFallback::GiveUp);
    assert_eq!(plan_swap_fallback(error, OTHER, "not a number"), SwapFallback::GiveUp);
    assert_eq!(plan_swap_fallback("0x1771", OTHER, "1"), SwapFallback::GiveUp);
}

#[test]
fn sol_as_input_is_a_purchase() {
    assert_eq!(
        plan_swap_fallback("token not found", WSOL, "1500000000"),
        SwapFallback::Buy { lamports: 1_500_000_000, slippage_bps: 100 }
    );
    assert_eq!(
        plan_swap_fallback("token not found", WSOL_MINT_LOWERCASE, "1"),
        SwapFallback::Buy { lamports: 1, slippage_bps: 100 }
    );
    assert_eq!(
        plan_swap_fallback("0x177", "SO11111111111111111111111111111111111111112", "0"),
        SwapFallback::Buy { lamports: 0, slippage_bps: 100 }
    );
}

#[test]
fn another_input_is_a_sale() {
    assert_eq!(
        plan_swap_fallback("token not found", OTHER, "250"),
        SwapFallback::Sell { amount: 250 }
    );
    assert_eq!(
        plan_swap_fallback("", "", "18446744073709551615"),
        SwapFallback::Sell { amount: u64::MAX }
    );
}

#[test]
fn an_amount_that_is_no_number_ends_it() {
    assert_eq!(plan_swap_fallback("token not found", WSOL, "1.5"), SwapFallback::InvalidAmount);
    assert_eq!(plan_swap_fallback("token not found", OTHER, ""), SwapFallback::InvalidAmount);
    assert_eq!(
        plan_swap_fallback("token not found", OTHER, "18446744073709551616"),
        SwapFallback::InvalidAmount
    );
}

#[test]
fn the_plan_for_a_lowered_mint() {
    // Here the mint is taken as it is given.
    assert_eq!(plan_fallback("e", WSOL, "7"), SwapFallback::Sell { amount: 7 });
    assert_eq!(
        plan_fallback("e", WSOL_MINT_LOWERCASE, "7"),
        SwapFallback::Buy { lamports: 7, slippage_bps: 100 }
    );
    assert_eq!(plan_fallback("e 0x1771", WSOL_MINT_LOWERCASE, "7"), SwapFallback::GiveUp);
    assert_eq!(plan_fallback("e", WSOL_MINT_LOWERCASE, "x"), SwapFallback::InvalidAmount);
}

#[test]
fn both_errors_in_one_text() {
    assert_eq!(
        combined_error("no route", "bonding curve complete"),
        "jupiter error: no route\n pump.fun error: bonding curve complete"
    );
    assert_eq!(combined_error("", ""), "jupiter error: \n pump.fun error: ");
}
