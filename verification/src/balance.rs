//! Reading a token balance: from the text of a balance query, and from the
//! account state that a subscription delivers.

use crate::text::chars_of;
use base64::Engine;
use spl_token::solana_program::program_pack::Pack;
use vstd::prelude::*;

verus! {

/// The length in bytes of a packed token account.
pub const TOKEN_ACCOUNT_LEN: usize = 165;

/// How the data of an account update is encoded.
#[derive(Debug, Clone, Copy, PartialEq, Eq, Structural)]
pub enum AccountEncoding {
    Binary,
    Base58,
    Base64,
    JsonParsed,
    Base64Zstd,
}

/// The data of an account update.
#[derive(Debug)]
pub enum AccountData {
    /// Binary data in the legacy text form.
    LegacyBinary(String),
    /// Data parsed to JSON, of which nothing is read here.
    Json,
    /// Binary data as text in the given encoding.
    Binary(String, AccountEncoding),
}

/// Why no balance could be read.
#[derive(Debug, Clone, Copy, PartialEq, Eq, Structural)]
pub enum BalanceError {
    /// No update came in time.
    Timeout,
    /// The update's data is not a packed token account in base64.
    MalformedPayload,
    /// The subscription ended before it delivered an update.
    SubscriptionEnded,
}

/// What a subscription to a token account has to show for itself when the
/// wait for its first update is over.
#[derive(Debug)]
pub enum StreamEvent {
    /// The first update.
    Update(AccountData),
    /// The time allowed ran out first.
    TimedOut,
    /// The stream ended first.
    Ended,
}

/// Whether a character is a decimal digit.
pub open spec fn is_digit(c: char) -> bool {
    '0' <= c && c <= '9'
}

/// The value of a decimal digit.
pub open spec fn digit_value(c: char) -> nat {
    (c as u32 - '0' as u32) as nat
}

/// Whether a text is made of decimal digits only.
pub open spec fn all_digits(text: Seq<char>) -> bool {
    forall|i: int| 0 <= i < text.len() ==> is_digit(#[trigger] text[i])
}

/// The number that a run of decimal digits writes.
pub open spec fn digits_value(text: Seq<char>) -> nat
    decreases text.len(),
{
    if text.len() == 0 {
        0
    } else {
        digits_value(text.drop_last()) * 10 + digit_value(text.last())
    }
}

/// A text without the plus sign that it may begin with.
pub open spec fn unsigned_part(text: Seq<char>) -> Seq<char> {
    if text.len() > 0 && text[0] == '+' {
        text.skip(1)
    } else {
        text
    }
}

/// The amount that a text writes: one or more decimal digits, an optional
/// plus sign before them, and a value that fits in 64 bits.
pub open spec fn parsed_amount(text: Seq<char>) -> Option<u64> {
    let digits = unsigned_part(text);
    if digits.len() > 0 && all_digits(digits) && digits_value(digits) <= u64::MAX {
        Some(digits_value(digits) as u64)
    } else {
        None
    }
}

/// A number never shrinks when digits are written after it.
pub proof fn lemma_digits_value_grows(text: Seq<char>, n: int)
    requires
        0 <= n <= text.len(),
    ensures
        digits_value(text.take(n)) <= digits_value(text),
    decreases text.len(),
{
    if n == text.len() {
        assert(text.take(n) =~= text);
    } else {
        lemma_digits_value_grows(text.drop_last(), n);
        assert(text.drop_last().take(n) =~= text.take(n));
    }
}

/// Reads an amount written in decimal digits.
pub fn parse_amount(text: &str) -> (r: Option<u64>)
    ensures
        r == parsed_amount(text@),
{
    let chars = chars_of(text);
    let n: usize = chars.len();
    if n == 0 {
        return None;
    }
    let start: usize = if chars[0] == '+' {
        1
    } else {
        0
    };
    if start == n {
        return None;
    }
    let ghost digits = unsigned_part(text@);
    assert(digits =~= text@.skip(start as int));
    let mut value: u64 = 0;
    let mut i: usize = start;
    assert(digits.take(0) =~= Seq::<char>::empty());
    while i < n
        invariant
            start <= i <= n,
            n == text@.len(),
            chars@ == text@,
            digits == text@.skip(start as int),
            digits == unsigned_part(text@),
            all_digits(digits.take(i - start)),
            value == digits_value(digits.take(i - start)),
        decreases n - i,
    {
        let c: char = chars[i];
        let ghost k = i - start;
        proof {
            assert(digits[k] == c);
            assert(digits.take(k + 1).drop_last() =~= digits.take(k));
            assert(digits.take(k + 1).last() == c);
        }
        if !(c >= '0' && c <= '9') {
            assert(!is_digit(digits[k]));
            return None;
        }
        let d: u64 = (c as u32 - '0' as u32) as u64;
        let next: Option<u64> = match value.checked_mul(10) {
            Some(v) => v.checked_add(d),
            None => None,
        };
        match next {
            Some(v) => {
                value = v;
            },
            None => {
                proof {
                    assert(digits_value(digits.take(k + 1)) == value * 10 + d);
                    lemma_digits_value_grows(digits, k + 1);
                }
                return None;
            },
        }
        proof {
            assert forall|j: int| 0 <= j < k + 1 implies is_digit(
                #[trigger] digits.take(k + 1)[j],
            ) by {
                if j < k {
                    assert(digits.take(k + 1)[j] == digits.take(k)[j]);
                }
            }
        }
        i = i + 1;
    }
    assert(digits.take(n - start) =~= digits);
    Some(value)
}

/// What the base64 engine with the standard alphabet and required padding
/// decodes a text to; `None` where it rejects the text.
pub uninterp spec fn base64_decoding(text: Seq<char>) -> Option<Seq<u8>>;

/// Whether the four bytes at `at` are the tag of an optional field: a
/// little-endian zero or one.
pub open spec fn is_option_tag(data: Seq<u8>, at: int) -> bool {
    (data[at] == 0 || data[at] == 1) && data[at + 1] == 0 && data[at + 2] == 0 && data[at + 3]
        == 0
}

/// The 64-bit number whose little-endian bytes start at `at`.
pub open spec fn le_u64(data: Seq<u8>, at: int) -> nat {
    (data[at] as nat) + 0x100 * (data[at + 1] as nat) + 0x1_0000 * (data[at + 2] as nat)
        + 0x100_0000 * (data[at + 3] as nat) + 0x1_0000_0000 * (data[at + 4] as nat)
        + 0x100_0000_0000 * (data[at + 5] as nat) + 0x1_0000_0000_0000 * (data[at + 6] as nat)
        + 0x100_0000_0000_0000 * (data[at + 7] as nat)
}

/// The amount held by a packed token account; `None` where the bytes are no
/// initialised token account.
///
/// A packed account is 165 bytes: mint (32), owner (32), amount (8),
/// optional delegate (4 + 32), state (1), optional native reserve (4 + 8),
/// delegated amount (8), optional close authority (4 + 32). The state is 1
/// for an initialised and 2 for a frozen account.
pub open spec fn token_account_amount(data: Seq<u8>) -> Option<u64> {
    if data.len() == TOKEN_ACCOUNT_LEN && is_option_tag(data, 72) && (data[108] == 1 || data[108]
        == 2) && is_option_tag(data, 109) && is_option_tag(data, 129) {
        Some(le_u64(data, 64) as u64)
    } else {
        None
    }
}

/// The balance in an account update's data: the data must be binary in
/// base64 and decode to an initialised packed token account.
pub open spec fn payload_balance(data: AccountData) -> Result<u64, BalanceError> {
    match data {
        AccountData::Binary(text, AccountEncoding::Base64) => decoded_balance(
            base64_decoding(text@),
        ),
        _ => Err(BalanceError::MalformedPayload),
    }
}

/// The balance in decoded account data.
pub open spec fn decoded_balance(decoded: Option<Seq<u8>>) -> Result<u64, BalanceError> {
    match decoded {
        Some(bytes) => match token_account_amount(bytes) {
            Some(amount) => Ok(amount),
            None => Err(BalanceError::MalformedPayload),
        },
        None => Err(BalanceError::MalformedPayload),
    }
}

/// The balance that the wait on a token account's subscription ends with.
pub open spec fn stream_balance(event: StreamEvent) -> Result<u64, BalanceError> {
    match event {
        StreamEvent::Update(data) => payload_balance(data),
        StreamEvent::TimedOut => Err(BalanceError::Timeout),
        StreamEvent::Ended => Err(BalanceError::SubscriptionEnded),
    }
}

/// The view of optional bytes.
pub open spec fn bytes_view(bytes: Option<Vec<u8>>) -> Option<Seq<u8>> {
    match bytes {
        Some(v) => Some(v@),
        None => None,
    }
}

/// Calls `decode` of the `base64` crate's `BASE64_STANDARD` engine on the
/// text. Trusted: the result is what that engine decodes the text to, and
/// `None` where it returns an error.
#[verifier::external_body]
fn decode_base64(text: &str) -> (r: Option<Vec<u8>>)
    ensures
        bytes_view(r) == base64_decoding(text@),
{
    base64::prelude::BASE64_STANDARD.decode(text).ok()
}

/// Calls `unpack` of `spl_token::state::Account` on the bytes and picks the
/// amount. Trusted: unpacking succeeds on exactly 165 bytes whose three
/// option tags are zero or one and whose state byte is 1 or 2, and the
/// amount is the little-endian number in bytes 64 to 71.
#[verifier::external_body]
fn unpack_token_amount(data: &[u8]) -> (r: Option<u64>)
    ensures
        r == token_account_amount(data@),
{
    spl_token::state::Account::unpack(data).ok().map(|account| account.amount)
}

/// The balance in decoded account data: the bytes must be an initialised
/// packed token account.
pub fn balance_of_decoded(decoded: Option<Vec<u8>>) -> (r: Result<u64, BalanceError>)
    ensures
        r == decoded_balance(bytes_view(decoded)),
{
    match decoded {
        Some(bytes) => match unpack_token_amount(bytes.as_slice()) {
            Some(amount) => Ok(amount),
            None => Err(BalanceError::MalformedPayload),
        },
        None => Err(BalanceError::MalformedPayload),
    }
}

/// The balance in an account update's data.
pub fn balance_of_payload(data: &AccountData) -> (r: Result<u64, BalanceError>)
    ensures
        r == payload_balance(*data),
{
    match data {
        AccountData::Binary(text, AccountEncoding::Base64) => balance_of_decoded(
            decode_base64(text.as_str()),
        ),
        _ => Err(BalanceError::MalformedPayload),
    }
}

/// The balance of a token account as its subscription tells it: that of the
/// first update, if one comes in time.
pub fn get_spl_balance_stream(event: &StreamEvent) -> (r: Result<u64, BalanceError>)
    ensures
        r == stream_balance(*event),
{
    match event {
        StreamEvent::Update(data) => balance_of_payload(data),
        StreamEvent::TimedOut => Err(BalanceError::Timeout),
        StreamEvent::Ended => Err(BalanceError::SubscriptionEnded),
    }
}

} // verus!
