use base64::Engine;
use listen_core::balance::{
    balance_of_decoded, balance_of_payload, get_spl_balance_stream, parse_amount, AccountData,
    AccountEncoding, BalanceError, StreamEvent, TOKEN_ACCOUNT_LEN,
};
use spl_token::solana_program::program_option::COption;
use spl_token::solana_program::program_pack::Pack;
use spl_token::solana_program::pubkey::Pubkey;

fn account_bytes(amount: u64) -> Vec<u8> {
    let mut bytes = vec![0u8; 165];
    bytes[64..72].copy_from_slice(&amount.to_le_bytes());
    bytes[108] = 1;
    bytes
}

fn base64_of(bytes: &[u8]) -> String {
    base64::prelude::BASE64_STANDARD.encode(bytes)
}

fn update(bytes: &[u8]) -> StreamEvent {
    StreamEvent::Update(AccountData::Binary(base64_of(bytes), AccountEncoding::Base64))
}

#[test]
fn amounts_are_decimal_digits() {
    assert_eq!(parse_amount("0"), Some(0));
    assert_eq!(parse_amount("7"), Some(7));
    assert_eq!(parse_amount("1234567890"), Some(1_234_567_890));
    assert_eq!(parse_amount("007"), Some(7));
    assert_eq!(parse_amount("+42"), Some(42));
    assert_eq!(parse_amount("18446744073709551615"), Some(u64::MAX));
    assert_eq!(parse_amount("018446744073709551615"), Some(u64::MAX));
}

#[test]
fn what_is_no_amount() {
    assert_eq!(parse_amount(""), None);
    assert_eq!(parse_amount("+"), None);
    assert_eq!(parse_amount("-1"), None);
    assert_eq!(parse_amount("-0"), None);
    assert_eq!(parse_amount("++1"), None);
    assert_eq!(parse_amount("1+"), None);
    assert_eq!(parse_amount(" 1"), None);
    assert_eq!(parse_amount("1 "), None);
    assert_eq!(parse_amount("1.5"), None);
    assert_eq!(parse_amount("1e3"), None);
    assert_eq!(parse_amount("0x10"), None);
    assert_eq!(parse_amount("١٢٣"), None);
    assert_eq!(parse_amount("18446744073709551616"), None);
    assert_eq!(parse_amount("99999999999999999999"), None);
    assert_eq!(parse_amount("184467440737095516150"), None);
    assert_eq!(parse_amount("99999999999999999999x"), None);
}

#[test]
fn amounts_parse_as_the_standard_library_parses_them() {
    for text in ["0", "+0", "12", "+", "", "-3", "0012", "18446744073709551615",
        "18446744073709551616", "1_000", "٣", "+-1", "4 2"]
    {
        assert_eq!(parse_amount(text), text.parse::<u64>().ok(), "{:?}", text);
    }
}

#[test]
fn a_well_formed_update_yields_the_balance() {
    assert_eq!(TOKEN_ACCOUNT_LEN, 165);
    assert_eq!(get_spl_balance_stream(&update(&account_bytes(123_456_789))), Ok(123_456_789));
    assert_eq!(get_spl_balance_stream(&update(&account_bytes(0))), Ok(0));
    assert_eq!(get_spl_balance_stream(&update(&account_bytes(u64::MAX))), Ok(u64::MAX));
    assert_eq!(
        get_spl_balance_stream(&update(&account_bytes(0x0102_0304_0506_0708))),
        Ok(0x0102_0304_0506_0708)
    );
}

#[test]
fn a_frozen_account_has_a_balance_too() {
    let mut bytes = account_bytes(55);
    bytes[108] = 2;
    assert_eq!(get_spl_balance_stream(&update(&bytes)), Ok(55));
}

#[test]
fn optional_fields_may_be_set() {
    let mut bytes = account_bytes(55);
    bytes[72] = 1;
    bytes[76..108].copy_from_slice(&[9u8; 32]);
    bytes[109] = 1;
    bytes[113..121].copy_from_slice(&2_039_280u64.to_le_bytes());
    bytes[129] = 1;
    bytes[133..165].copy_from_slice(&[7u8; 32]);
    assert_eq!(get_spl_balance_stream(&update(&bytes)), Ok(55));
}

#[test]
fn the_packed_form_is_that_of_the_token_program() {
    #[allow(deprecated)]
    let account = spl_token::state::Account {
        mint: Pubkey::new_from_array([3u8; 32]),
        owner: Pubkey::new_from_array([4u8; 32]),
        amount: 9_876_543_210,
        delegate: COption::Some(Pubkey::new_from_array([5u8; 32])),
        state: spl_token::state::AccountState::Initialized,
        is_native: COption::None,
        delegated_amount: 17,
        close_authority: COption::None,
    };
    let mut bytes = vec![0u8; 165];
    #[allow(deprecated)]
    spl_token::state::Account::pack(account, &mut bytes).unwrap();
    assert_eq!(get_spl_balance_stream(&update(&bytes)), Ok(9_876_543_210));
    assert_eq!(balance_of_decoded(Some(bytes)), Ok(9_876_543_210));
}

#[test]
fn what_is_no_token_account() {
    let malformed = Err(BalanceError::MalformedPayload);
    // Not initialised.
    let mut bytes = account_bytes(55);
    bytes[108] = 0;
    assert_eq!(get_spl_balance_stream(&update(&bytes)), malformed);
    // No such state.
    bytes[108] = 3;
    assert_eq!(get_spl_balance_stream(&update(&bytes)), malformed);
    // Wrong length.
    assert_eq!(get_spl_balance_stream(&update(&account_bytes(55)[..164])), malformed);
    let mut longer = account_bytes(55);
    longer.push(0);
    assert_eq!(get_spl_balance_stream(&update(&longer)), malformed);
    assert_eq!(get_spl_balance_stream(&update(&[])), malformed);
    // Tags of optional fields that are neither zero nor one.
    for at in [72usize, 73, 74, 75, 109, 110, 111, 112, 129, 130, 131, 132] {
        let mut bytes = account_bytes(55);
        bytes[at] = 2;
        assert_eq!(get_spl_balance_stream(&update(&bytes)), malformed, "tag byte {}", at);
    }
    for at in [73usize, 110, 130] {
        let mut bytes = account_bytes(55);
        bytes[at] = 1;
        assert_eq!(get_spl_balance_stream(&update(&bytes)), malformed, "tag byte {}", at);
    }
    assert_eq!(balance_of_decoded(None), malformed);
    assert_eq!(balance_of_decoded(Some(Vec::new())), malformed);
}

#[test]
fn what_is_no_base64() {
    let malformed = Err(BalanceError::MalformedPayload);
    let text = base64_of(&account_bytes(55));
    let broken = format!("{}!", text);
    assert_eq!(
        balance_of_payload(&AccountData::Binary(broken, AccountEncoding::Base64)),
        malformed
    );
    let unpadded = base64_of(&account_bytes(55)[..164]);
    assert!(unpadded.ends_with('='));
    let stripped = unpadded.trim_end_matches('=').to_string();
    assert_eq!(
        balance_of_payload(&AccountData::Binary(stripped, AccountEncoding::Base64)),
        malformed
    );
    assert_eq!(
        balance_of_payload(&AccountData::Binary(String::new(), AccountEncoding::Base64)),
        malformed
    );
}

#[test]
fn only_base64_binary_data_is_read() {
    let malformed = Err(BalanceError::MalformedPayload);
    let text = base64_of(&account_bytes(55));
    assert_eq!(
        balance_of_payload(&AccountData::Binary(text.clone(), AccountEncoding::Base64)),
        Ok(55)
    );
    for encoding in [
        AccountEncoding::Binary,
        AccountEncoding::Base58,
        AccountEncoding::JsonParsed,
        AccountEncoding::Base64Zstd,
    ] {
        assert_eq!(balance_of_payload(&AccountData::Binary(text.clone(), encoding)), malformed);
    }
    assert_eq!(balance_of_payload(&AccountData::LegacyBinary(text)), malformed);
    assert_eq!(balance_of_payload(&AccountData::Json), malformed);
}

#[test]
fn no_update_in_time_is_a_timeout() {
    assert_eq!(get_spl_balance_stream(&StreamEvent::TimedOut), Err(BalanceError::Timeout));
    assert_eq!(get_spl_balance_stream(&StreamEvent::Ended), Err(BalanceError::SubscriptionEnded));
}

fn next_random(state: &mut u64) -> u64 {
    *state = state.wrapping_mul(6364136223846793005).wrapping_add(1442695040888963407);
    *state >> 33
}

fn is_option_tag(bytes: &[u8], at: usize) -> bool {
    (bytes[at] == 0 || bytes[at] == 1) && bytes[at + 1] == 0 && bytes[at + 2] == 0 && bytes[at + 3] == 0
}

fn expected_amount(bytes: &[u8]) -> Option<u64> {
    if bytes.len() == 165
        && is_option_tag(bytes, 72)
        && (bytes[108] == 1 || bytes[108] == 2)
        && is_option_tag(bytes, 109)
        && is_option_tag(bytes, 129)
    {
        let mut amount = [0u8; 8];
        amount.copy_from_slice(&bytes[64..72]);
        Some(u64::from_le_bytes(amount))
    } else {
        None
    }
}

#[test]
fn many_accounts_unpack_as_the_layout_says() {
    let mut seed = 0x5eed_u64;
    let mut accepted = 0;
    for _ in 0..4000 {
        let mut bytes: Vec<u8> = (0..165).map(|_| next_random(&mut seed) as u8).collect();
        for at in [72usize, 109, 129] {
            bytes[at] = (next_random(&mut seed) % 3) as u8;
            for k in 1..4 {
                bytes[at + k] = if next_random(&mut seed) % 8 == 0 { 1 } else { 0 };
            }
        }
        bytes[108] = (next_random(&mut seed) % 4) as u8;
        if next_random(&mut seed) % 16 == 0 {
            bytes.truncate((next_random(&mut seed) % 165) as usize);
        }
        let expected = expected_amount(&bytes);
        if expected.is_some() {
            accepted += 1;
        }
        assert_eq!(balance_of_decoded(Some(bytes.clone())).ok(), expected, "{:?}", bytes);
        assert_eq!(get_spl_balance_stream(&update(&bytes)).ok(), expected);
    }
    assert!(accepted > 100);
}

#[test]
fn many_texts_parse_as_the_standard_library_parses_them() {
    let alphabet: Vec<char> = "0123456789+- .x٣".chars().collect();
    let mut seed = 0xfeed_u64;
    let mut accepted = 0;
    for _ in 0..4000 {
        let len = next_random(&mut seed) % 23;
        let text: String = (0..len)
            .map(|_| {
                let pick = next_random(&mut seed) as usize;
                if pick % 4 == 0 {
                    alphabet[(pick / 4) % alphabet.len()]
                } else {
                    alphabet[(pick / 4) % 10]
                }
            })
            .collect();
        let expected = text.parse::<u64>().ok();
        if expected.is_some() {
            accepted += 1;
        }
        assert_eq!(parse_amount(&text), expected, "{:?}", text);
    }
    assert!(accepted > 100);
}
