use listen_core::diffs::{
    get_token_balance_diff, is_wsol_mint, price_per_token, process_diffs, swap_volume, Diff,
    DiffsError, TokenBalance, WSOL_MINT_KEY_STR,
};

const WSOL: &str = "So11111111111111111111111111111111111111112";
const RAYDIUM: &str = "5Q544fKrFoe6tsEbD7S8EmxGTJYAKtTVhAW5Q5pge4j1";

fn raw(ui_amount: f64, decimals: i32) -> u64 {
    (ui_amount * 10f64.powi(decimals)).round() as u64
}

fn round_to_decimals(value: f64, decimals: i32) -> f64 {
    let scale = 10f64.powi(decimals);
    (value * scale).round() / scale
}

fn usd(nano: u128) -> f64 {
    nano as f64 / 1e9
}

fn balance(mint: &str, owner: &str, amount: u64, decimals: u8) -> TokenBalance {
    TokenBalance { mint: mint.to_string(), owner: owner.to_string(), amount, decimals }
}

fn leg(mint: &str, owner: &str, pre: u64, post: u64, decimals: u8) -> Diff {
    Diff {
        mint: mint.to_string(),
        owner: owner.to_string(),
        pre_amount: pre,
        post_amount: post,
        decimals,
    }
}

#[test]
fn test_sol_for_token() {
    let diffs = vec![
        Diff {
            mint: "G6ZaVuWEuGtFRooaiHQWjDzoCzr2f7BWr3PhsQRnjSTE".to_string(),
            pre_amount: raw(9502698.632123, 6),
            post_amount: raw(9493791.483438, 6),
            decimals: 6,
            owner: "8CNuwDVRshWyZtWRvgb31AMaBge4q6KSRHNPdJHP29HU".to_string(),
        },
        Diff {
            mint: "So11111111111111111111111111111111111111112".to_string(),
            pre_amount: raw(145.774357667, 9),
            post_amount: raw(142.421949398, 9),
            decimals: 9,
            owner: "5Q544fKrFoe6tsEbD7S8EmxGTJYAKtTVhAW5Q5pge4j1".to_string(),
        },
    ];
    assert_eq!(diffs[0].diff(), -8907148685);
    assert_eq!(diffs[1].diff(), -3352408269);

    let result = process_diffs(&diffs, raw(201.36, 9)).unwrap();
    let rounded_price = round_to_decimals(usd(result.price as u128), 4);
    assert!(rounded_price == 0.0758, "price: {}", rounded_price);
    assert!(
        result.swap_amount == (3.3524082689999943 * 201.36 * 1e9) as u128,
        "swap_amount: {}",
        result.swap_amount
    );
    assert_eq!(result.swap_amount, 675_040_929_045);
    assert_eq!(result.price, 75_786_421);
    assert_eq!(result.coin_mint, "G6ZaVuWEuGtFRooaiHQWjDzoCzr2f7BWr3PhsQRnjSTE");
    assert!(!result.is_buy);
}

#[test]
fn test_sol_for_token_2() {
    let diffs = vec![
        Diff {
            mint: "So11111111111111111111111111111111111111112".to_string(),
            pre_amount: raw(450.295597127, 9),
            post_amount: raw(450.345597127, 9),
            decimals: 9,
            owner: "5Q544fKrFoe6tsEbD7S8EmxGTJYAKtTVhAW5Q5pge4j1".to_string(),
        },
        Diff {
            mint: "CSChJMDH1drnxaN5ZXr8ZPZtqXv2FJqNTGcSujyfmoon".to_string(),
            pre_amount: raw(61602947.9232689, 6),
            post_amount: raw(61596125.50088912, 6),
            decimals: 6,
            owner: "5Q544fKrFoe6tsEbD7S8EmxGTJYAKtTVhAW5Q5pge4j1".to_string(),
        },
    ];
    assert_eq!(diffs[0].diff(), 50_000_000);
    assert_eq!(diffs[1].diff(), -6_822_422_380);

    let result = process_diffs(&diffs, raw(202.12, 9)).unwrap();
    let rounded_price = round_to_decimals(usd(result.price as u128), 5);
    assert!(rounded_price == 0.00148, "price: {}", rounded_price);
    assert!(
        result.swap_amount == (0.05000000000001137 * 202.12 * 1e9) as u128,
        "swap_amount: {}",
        result.swap_amount
    );
    assert_eq!(result.swap_amount, 10_106_000_000);
    assert_eq!(result.price, 1_481_292);
    assert_eq!(result.coin_mint, "CSChJMDH1drnxaN5ZXr8ZPZtqXv2FJqNTGcSujyfmoon");
    assert!(result.is_buy);
}

#[test]
fn wsol_constant_is_the_wrapped_sol_mint() {
    assert_eq!(WSOL_MINT_KEY_STR, WSOL);
    assert!(is_wsol_mint(&WSOL.to_string()));
    assert!(!is_wsol_mint(&"so11111111111111111111111111111111111111112".to_string()));
    assert!(!is_wsol_mint(&String::new()));
}

#[test]
fn diff_is_post_minus_pre() {
    let up = leg("M", "O", 5, 12, 0);
    assert_eq!(up.diff(), 7);
    assert_eq!(up.abs_diff(), 7);
    let down = leg("M", "O", 12, 5, 0);
    assert_eq!(down.diff(), -7);
    assert_eq!(down.abs_diff(), 7);
    let widest = leg("M", "O", u64::MAX, 0, 0);
    assert_eq!(widest.diff(), -(u64::MAX as i128));
    assert_eq!(widest.abs_diff(), u64::MAX);
    let still = leg("M", "O", 9, 9, 0);
    assert_eq!(still.diff(), 0);
}

#[test]
fn one_diff_per_account_missing_side_is_zero() {
    let pre = vec![balance("A", "alice", 100, 6), balance("B", "bob", 7, 9)];
    let post = vec![balance("B", "bob", 10, 9), balance("C", "carol", 55, 2)];
    let diffs = get_token_balance_diff(&pre, &post);
    assert_eq!(diffs.len(), 3);

    assert_eq!(diffs[0].mint, "A");
    assert_eq!(diffs[0].owner, "alice");
    assert_eq!(diffs[0].pre_amount, 100);
    assert_eq!(diffs[0].post_amount, 0);
    assert_eq!(diffs[0].decimals, 6);
    assert_eq!(diffs[0].diff(), -100);

    assert_eq!(diffs[1].mint, "B");
    assert_eq!(diffs[1].owner, "bob");
    assert_eq!(diffs[1].pre_amount, 7);
    assert_eq!(diffs[1].post_amount, 10);
    assert_eq!(diffs[1].decimals, 9);
    assert_eq!(diffs[1].diff(), 3);

    assert_eq!(diffs[2].mint, "C");
    assert_eq!(diffs[2].owner, "carol");
    assert_eq!(diffs[2].pre_amount, 0);
    assert_eq!(diffs[2].post_amount, 55);
    assert_eq!(diffs[2].decimals, 2);
    assert_eq!(diffs[2].diff(), 55);
}

#[test]
fn same_mint_with_two_owners_is_two_accounts() {
    let pre = vec![balance("A", "alice", 1, 0), balance("A", "bob", 2, 0)];
    let post = vec![balance("A", "bob", 5, 0), balance("A", "alice", 4, 0)];
    let diffs = get_token_balance_diff(&pre, &post);
    assert_eq!(diffs.len(), 2);
    assert_eq!((diffs[0].owner.as_str(), diffs[0].diff()), ("alice", 3));
    assert_eq!((diffs[1].owner.as_str(), diffs[1].diff()), ("bob", 3));
}

#[test]
fn unchanged_accounts_are_not_filtered_out() {
    let pre = vec![balance("A", "alice", 8, 0)];
    let post = vec![balance("A", "alice", 8, 0)];
    let diffs = get_token_balance_diff(&pre, &post);
    assert_eq!(diffs.len(), 1);
    assert_eq!(diffs[0].diff(), 0);
}

#[test]
fn an_account_named_twice_counts_with_its_last_entry() {
    let pre = vec![balance("A", "alice", 1, 0), balance("A", "alice", 9, 0)];
    let post = vec![balance("A", "alice", 20, 0), balance("A", "alice", 30, 0)];
    let diffs = get_token_balance_diff(&pre, &post);
    assert_eq!(diffs.len(), 1);
    assert_eq!(diffs[0].pre_amount, 9);
    assert_eq!(diffs[0].post_amount, 30);
}

#[test]
fn no_balances_no_diffs() {
    let diffs = get_token_balance_diff(&Vec::new(), &Vec::new());
    assert!(diffs.is_empty());
}

#[test]
fn pricing_needs_exactly_two_legs() {
    let one = vec![leg(WSOL, RAYDIUM, 0, 1_000_000_000, 9)];
    assert_eq!(
        process_diffs(&one, 1).unwrap_err(),
        DiffsError::ExpectedExactlyTwoTokenBalanceDiffs
    );
    let three = vec![
        leg(WSOL, RAYDIUM, 0, 1_000_000_000, 9),
        leg("A", RAYDIUM, 10, 0, 0),
        leg("B", RAYDIUM, 0, 10, 0),
    ];
    assert_eq!(
        process_diffs(&three, 1).unwrap_err(),
        DiffsError::ExpectedExactlyTwoTokenBalanceDiffs
    );
    assert_eq!(
        process_diffs(&Vec::new(), 1).unwrap_err(),
        DiffsError::ExpectedExactlyTwoTokenBalanceDiffs
    );
}

#[test]
fn pricing_needs_a_sol_leg() {
    let diffs = vec![leg("A", RAYDIUM, 10, 0, 0), leg("B", RAYDIUM, 0, 10, 0)];
    assert_eq!(process_diffs(&diffs, 1).unwrap_err(), DiffsError::NonWsolsSwap);
}

#[test]
fn exact_price_and_volume() {
    // 2 SOL at 150 dollars for 4 whole tokens of 3 decimals: 300 dollars, 75 a token.
    let diffs = vec![leg("A", "user", 0, 4_000, 3), leg(WSOL, "user", 2_000_000_000, 0, 9)];
    let result = process_diffs(&diffs, 150_000_000_000).unwrap();
    assert_eq!(result.swap_amount, 300_000_000_000);
    assert_eq!(result.price, 75_000_000_000);
    assert_eq!(result.coin_mint, "A");
    assert!(!result.is_buy);
}

#[test]
fn volume_and_price_round_down() {
    // 1 lamport at 1.5 dollars: 1.5 billionths of a dollar, told as 1.
    let sol = leg(WSOL, "pool", 0, 1, 9);
    assert_eq!(swap_volume(&sol, 1_500_000_000), 1);
    // 10 billionths for 3 whole tokens: 3.33 billionths a token, told as 3.
    let traded = leg("A", "pool", 3, 0, 0);
    assert_eq!(price_per_token(10, &traded), 3);
}

#[test]
fn of_two_sol_legs_the_first_is_the_sol_leg() {
    let diffs = vec![leg(WSOL, "a", 0, 1_000_000_000, 9), leg(WSOL, "b", 2_000_000_000, 0, 9)];
    let result = process_diffs(&diffs, 100_000_000_000).unwrap();
    assert_eq!(result.swap_amount, 100_000_000_000);
    assert_eq!(result.price, 50_000_000_000);
    assert_eq!(result.coin_mint, WSOL);
    assert!(result.is_buy);
}

#[test]
fn price_stops_at_the_ceiling() {
    // A leg that did not move prices at the ceiling.
    let still = leg("A", "pool", 5, 5, 0);
    assert_eq!(price_per_token(10, &still), u64::MAX);
    // So does a price too large to tell.
    let dust = leg("A", "pool", 0, 1, 30);
    assert_eq!(price_per_token(u128::MAX, &dust), u64::MAX);
    assert_eq!(price_per_token(1, &leg("A", "pool", 0, 1, 200)), u64::MAX);
    assert_eq!(price_per_token(u64::MAX as u128 + 1, &leg("A", "pool", 0, 1, 0)), u64::MAX);
    assert_eq!(price_per_token(u64::MAX as u128, &leg("A", "pool", 0, 1, 0)), u64::MAX);
    assert_eq!(price_per_token(u64::MAX as u128 - 1, &leg("A", "pool", 0, 1, 0)), u64::MAX - 1);
    // No volume, no price.
    assert_eq!(price_per_token(0, &leg("A", "pool", 0, 1, 200)), 0);
}

#[test]
fn volume_of_the_widest_leg_at_the_highest_price() {
    let sol = leg(WSOL, "pool", 0, u64::MAX, 0);
    assert_eq!(swap_volume(&sol, u64::MAX), (u64::MAX as u128) * (u64::MAX as u128));
    let many_decimals = leg(WSOL, "pool", 0, u64::MAX, 255);
    assert_eq!(swap_volume(&many_decimals, u64::MAX), 0);
}

#[test]
fn a_reported_balance_has_its_amount_as_text() {
    let b = TokenBalance::from_reported("M", "O", "9502698632123", 6).unwrap();
    assert_eq!(b.mint, "M");
    assert_eq!(b.owner, "O");
    assert_eq!(b.amount, 9_502_698_632_123);
    assert_eq!(b.decimals, 6);
    assert!(TokenBalance::from_reported("M", "O", "9502698.632123", 6).is_none());
    assert!(TokenBalance::from_reported("M", "O", "", 6).is_none());
    assert!(TokenBalance::from_reported("M", "O", "18446744073709551616", 0).is_none());
}
