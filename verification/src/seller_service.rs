//! Watching a pool's SOL reserve until it has grown or shrunk enough, and
//! selling the position then.
//!
//! One watch goes through three phases and never back: it finds out how much
//! of the token is held, it watches the vault, it sells. The queries, the
//! subscriptions and the swap are the caller's. Each step here takes what
//! the last of them brought and says what is to be done next.

use crate::balance::{
    balance_of_payload, parse_amount, parsed_amount, payload_balance, AccountData, BalanceError,
};
use vstd::prelude::*;

verus! {

/// The reserve at which profit is taken, in tenths of the reserve at entry.
pub const TAKE_PROFIT_TENTHS: u64 = 14;

/// The reserve at which the loss is stopped, in tenths of the reserve at
/// entry.
pub const STOP_LOSS_TENTHS: u64 = 8;

/// How long the first update of a token account is waited for, in seconds.
pub const BALANCE_TIMEOUT_SECS: u64 = 10;

/// A request to watch a position and to sell it when a threshold is met.
#[derive(Debug)]
pub struct SellRequest {
    pub amm_pool: String,
    pub input_mint: String,
    pub output_mint: String,
    pub sol_vault: String,
    /// The pool's SOL reserve when the position was opened, in lamports.
    pub sol_pooled_when_bought: u64,
}

/// The two accounts that a watch subscribes to.
#[derive(Debug, Clone, Copy, PartialEq, Eq, Structural)]
pub enum Subscription {
    /// The token account whose balance is sold.
    TokenAccount,
    /// The pool's SOL vault.
    Vault,
}

/// Why a watch failed.
#[derive(Debug, Clone, Copy, PartialEq, Eq, Structural)]
pub enum WatchError {
    /// The balance query failed, and so did the subscription in its place.
    SubscribeFailed,
    /// The token account sent no update in time.
    Timeout,
    /// A balance could not be read from what was received.
    MalformedPayload,
    /// A subscription ended, or the vault's could not be opened.
    SubscriptionError,
    /// The swap that sells the position failed.
    ExitSwapFailed,
}

/// Where a watch stands.
#[derive(Debug, Clone, Copy, PartialEq, Eq, Structural)]
pub enum WatchState {
    /// The balance query is under way.
    QueryingBalance,
    /// The query failed; the token account's subscription is being opened.
    SubscribingBalance,
    /// The token account's subscription is open and its first update awaited.
    AwaitingBalance,
    /// The balance is known; the vault's subscription is being opened.
    SubscribingVault { balance: u64 },
    /// The vault's subscription is open and its updates are observed.
    WatchingVault { balance: u64 },
    /// A threshold was met; the swap is under way.
    Exiting { balance: u64 },
    /// The position was sold.
    Done,
    /// The watch failed.
    Failed(WatchError),
}

/// What the caller reports to a watch.
#[derive(Debug)]
pub enum WatchEvent {
    /// The balance query returned the raw amount as text, or failed.
    BalanceQueried(Option<String>),
    /// The subscription asked for was opened, or could not be.
    Subscribed(bool),
    /// The open subscription delivered a state of its account.
    AccountUpdate { lamports: u64, data: AccountData },
    /// The time allowed for an update ran out.
    TimedOut,
    /// The open subscription ended.
    StreamEnded,
    /// The swap went through, or failed.
    SwapFinished(bool),
}

/// What the caller is to do for a watch.
#[derive(Debug, Clone, Copy, PartialEq, Eq, Structural)]
pub enum Command {
    /// Query the token account's balance once.
    QueryBalance,
    /// Open a subscription.
    Subscribe(Subscription),
    /// Wait for the next update of an open subscription, for so many seconds
    /// or without limit.
    AwaitUpdate { subscription: Subscription, timeout_secs: Option<u64> },
    /// Sell this amount of the input mint for the output mint.
    ExecuteSwap { amount: u64 },
    /// Nothing more.
    Stop,
}

/// The outcome of one step of a watch.
#[derive(Debug, Clone, Copy, PartialEq, Eq, Structural)]
pub struct WatchStep {
    /// Where the watch stands now.
    pub state: WatchState,
    /// The subscription to release before anything else is done.
    pub release: Option<Subscription>,
}

/// Whether a reserve has reached the level at which profit is taken.
pub open spec fn take_profit_met(lamports: u64, entry: u64) -> bool {
    10 * lamports >= TAKE_PROFIT_TENTHS * entry
}

/// Whether a reserve has fallen to the level at which the loss is stopped.
pub open spec fn stop_loss_met(lamports: u64, entry: u64) -> bool {
    10 * lamports <= STOP_LOSS_TENTHS * entry
}

/// Whether a reserve calls for the exit.
pub open spec fn exit_due(lamports: u64, entry: u64) -> bool {
    take_profit_met(lamports, entry) || stop_loss_met(lamports, entry)
}

/// The failure of a watch that a failure to read the balance amounts to.
pub open spec fn watch_error(e: BalanceError) -> WatchError {
    match e {
        BalanceError::Timeout => WatchError::Timeout,
        BalanceError::MalformedPayload => WatchError::MalformedPayload,
        BalanceError::SubscriptionEnded => WatchError::SubscriptionError,
    }
}

impl WatchState {
    /// The state in which every watch starts.
    pub open spec fn initial() -> WatchState {
        WatchState::QueryingBalance
    }

    /// The phase of a state: 0 while the balance is found out, 1 while the
    /// vault is watched, 2 while the position is sold, 3 at the end.
    pub open spec fn phase(self) -> nat {
        match self {
            WatchState::QueryingBalance => 0,
            WatchState::SubscribingBalance => 0,
            WatchState::AwaitingBalance => 0,
            WatchState::SubscribingVault { .. } => 1,
            WatchState::WatchingVault { .. } => 1,
            WatchState::Exiting { .. } => 2,
            WatchState::Done => 3,
            WatchState::Failed(_) => 3,
        }
    }

    /// Whether the watch has ended.
    pub open spec fn is_final(self) -> bool {
        self is Done || self is Failed
    }

    /// The subscription that is open in a state.
    pub open spec fn held(self) -> Option<Subscription> {
        match self {
            WatchState::AwaitingBalance => Some(Subscription::TokenAccount),
            WatchState::WatchingVault { .. } => Some(Subscription::Vault),
            _ => None,
        }
    }

    /// What the caller is to do in a state.
    pub open spec fn due(self) -> Command {
        match self {
            WatchState::QueryingBalance => Command::QueryBalance,
            WatchState::SubscribingBalance => Command::Subscribe(Subscription::TokenAccount),
            WatchState::AwaitingBalance => Command::AwaitUpdate {
                subscription: Subscription::TokenAccount,
                timeout_secs: Some(BALANCE_TIMEOUT_SECS),
            },
            WatchState::SubscribingVault { .. } => Command::Subscribe(Subscription::Vault),
            WatchState::WatchingVault { .. } => Command::AwaitUpdate {
                subscription: Subscription::Vault,
                timeout_secs: None,
            },
            WatchState::Exiting { balance } => Command::ExecuteSwap { amount: balance },
            WatchState::Done => Command::Stop,
            WatchState::Failed(_) => Command::Stop,
        }
    }

    /// The state that follows once the balance was read from the token
    /// account's first update, or could not be.
    pub open spec fn with_balance(read: Result<u64, BalanceError>) -> WatchState {
        match read {
            Ok(balance) => WatchState::SubscribingVault { balance },
            Err(e) => WatchState::Failed(watch_error(e)),
        }
    }

    /// The state that follows on an event. An event that the state does not
    /// wait for changes nothing.
    pub open spec fn next(self, event: WatchEvent, entry: u64) -> WatchState {
        match (self, event) {
            (WatchState::QueryingBalance, WatchEvent::BalanceQueried(Some(text))) => {
                match parsed_amount(text@) {
                    Some(balance) => WatchState::SubscribingVault { balance },
                    None => WatchState::Failed(WatchError::MalformedPayload),
                }
            },
            (
                WatchState::QueryingBalance,
                WatchEvent::BalanceQueried(None),
            ) => WatchState::SubscribingBalance,
            (WatchState::SubscribingBalance, WatchEvent::Subscribed(ok)) => if ok {
                WatchState::AwaitingBalance
            } else {
                WatchState::Failed(WatchError::SubscribeFailed)
            },
            (
                WatchState::AwaitingBalance,
                WatchEvent::AccountUpdate { data, .. },
            ) => WatchState::with_balance(payload_balance(data)),
            (WatchState::AwaitingBalance, WatchEvent::TimedOut) => WatchState::Failed(
                WatchError::Timeout,
            ),
            (WatchState::AwaitingBalance, WatchEvent::StreamEnded) => WatchState::Failed(
                WatchError::SubscriptionError,
            ),
            (WatchState::SubscribingVault { balance }, WatchEvent::Subscribed(ok)) => if ok {
                WatchState::WatchingVault { balance }
            } else {
                WatchState::Failed(WatchError::SubscriptionError)
            },
            (WatchState::WatchingVault { balance }, WatchEvent::AccountUpdate { lamports, .. }) => {
                if exit_due(lamports, entry) {
                    WatchState::Exiting { balance }
                } else {
                    self
                }
            },
            (WatchState::WatchingVault { .. }, WatchEvent::StreamEnded) => WatchState::Failed(
                WatchError::SubscriptionError,
            ),
            (WatchState::Exiting { .. }, WatchEvent::SwapFinished(ok)) => if ok {
                WatchState::Done
            } else {
                WatchState::Failed(WatchError::ExitSwapFailed)
            },
            _ => self,
        }
    }

    /// The subscription that is released on an event: the one that was open,
    /// where the state that follows keeps none open.
    pub open spec fn released(self, event: WatchEvent, entry: u64) -> Option<Subscription> {
        if self.next(event, entry).held() is None {
            self.held()
        } else {
            None
        }
    }

    /// The outcome of a step on an event.
    pub open spec fn stepped(self, event: WatchEvent, entry: u64) -> WatchStep {
        WatchStep { state: self.next(event, entry), release: self.released(event, entry) }
    }

    /// Starts a watch.
    pub fn start() -> (s: WatchState)
        ensures
            s == WatchState::initial(),
    {
        WatchState::QueryingBalance
    }

    /// Whether the watch has ended.
    pub fn is_finished(&self) -> (r: bool)
        ensures
            r == self.is_final(),
    {
        match self {
            WatchState::Done => true,
            WatchState::Failed(_) => true,
            _ => false,
        }
    }

    /// What the caller is to do now.
    pub fn command(&self) -> (c: Command)
        ensures
            c == self.due(),
    {
        match self {
            WatchState::QueryingBalance => Command::QueryBalance,
            WatchState::SubscribingBalance => Command::Subscribe(Subscription::TokenAccount),
            WatchState::AwaitingBalance => Command::AwaitUpdate {
                subscription: Subscription::TokenAccount,
                timeout_secs: Some(BALANCE_TIMEOUT_SECS),
            },
            WatchState::SubscribingVault { .. } => Command::Subscribe(Subscription::Vault),
            WatchState::WatchingVault { .. } => Command::AwaitUpdate {
                subscription: Subscription::Vault,
                timeout_secs: None,
            },
            WatchState::Exiting { balance } => Command::ExecuteSwap { amount: *balance },
            WatchState::Done => Command::Stop,
            WatchState::Failed(_) => Command::Stop,
        }
    }
}

/// Whether a reserve calls for the exit: it has reached 1.4 times the
/// reserve at entry, or fallen to 0.8 times it.
pub fn threshold_met(lamports: u64, entry: u64) -> (r: bool)
    ensures
        r == exit_due(lamports, entry),
{
    assert(TAKE_PROFIT_TENTHS * entry == 14 * entry && STOP_LOSS_TENTHS * entry == 8 * entry);
    let now: u128 = 10 * (lamports as u128);
    let take_profit: u128 = (TAKE_PROFIT_TENTHS as u128) * (entry as u128);
    let stop_loss: u128 = (STOP_LOSS_TENTHS as u128) * (entry as u128);
    now >= take_profit || now <= stop_loss
}

/// The step that ends the wait for the token account's first update: the
/// watch goes on with the balance that was read, or fails for the reason
/// why none was, and the subscription is released either way.
pub fn balance_step(read: Result<u64, BalanceError>) -> (r: WatchStep)
    ensures
        r == (WatchStep {
            state: WatchState::with_balance(read),
            release: Some(Subscription::TokenAccount),
        }),
{
    match read {
        Ok(balance) => WatchStep {
            state: WatchState::SubscribingVault { balance },
            release: Some(Subscription::TokenAccount),
        },
        Err(e) => WatchStep {
            state: WatchState::Failed(watch_error_of(e)),
            release: Some(Subscription::TokenAccount),
        },
    }
}

/// The failure of a watch that a failure to read the balance amounts to.
pub fn watch_error_of(e: BalanceError) -> (r: WatchError)
    ensures
        r == watch_error(e),
{
    match e {
        BalanceError::Timeout => WatchError::Timeout,
        BalanceError::MalformedPayload => WatchError::MalformedPayload,
        BalanceError::SubscriptionEnded => WatchError::SubscriptionError,
    }
}

impl SellRequest {
    /// Takes a watch one step on: from where it stands and what the caller
    /// reports to where it stands next and the subscription to release.
    /// What is to be done next is the new state's [`WatchState::command`].
    pub fn step(&self, state: WatchState, event: &WatchEvent) -> (r: WatchStep)
        ensures
            r == state.stepped(*event, self.sol_pooled_when_bought),
    {
        let entry: u64 = self.sol_pooled_when_bought;
        match state {
            WatchState::QueryingBalance => match event {
                WatchEvent::BalanceQueried(Some(text)) => match parse_amount(text.as_str()) {
                    Some(balance) => WatchStep {
                        state: WatchState::SubscribingVault { balance },
                        release: None,
                    },
                    None => WatchStep {
                        state: WatchState::Failed(WatchError::MalformedPayload),
                        release: None,
                    },
                },
                WatchEvent::BalanceQueried(None) => WatchStep {
                    state: WatchState::SubscribingBalance,
                    release: None,
                },
                _ => WatchStep { state, release: None },
            },
            WatchState::SubscribingBalance => match event {
                WatchEvent::Subscribed(ok) => if *ok {
                    WatchStep { state: WatchState::AwaitingBalance, release: None }
                } else {
                    WatchStep {
                        state: WatchState::Failed(WatchError::SubscribeFailed),
                        release: None,
                    }
                },
                _ => WatchStep { state, release: None },
            },
            WatchState::AwaitingBalance => match event {
                WatchEvent::AccountUpdate { data, .. } => balance_step(balance_of_payload(data)),
                WatchEvent::TimedOut => WatchStep {
                    state: WatchState::Failed(WatchError::Timeout),
                    release: Some(Subscription::TokenAccount),
                },
                WatchEvent::StreamEnded => WatchStep {
                    state: WatchState::Failed(WatchError::SubscriptionError),
                    release: Some(Subscription::TokenAccount),
                },
                _ => WatchStep { state, release: None },
            },
            WatchState::SubscribingVault { balance } => match event {
                WatchEvent::Subscribed(ok) => if *ok {
                    WatchStep { state: WatchState::WatchingVault { balance }, release: None }
                } else {
                    WatchStep {
                        state: WatchState::Failed(WatchError::SubscriptionError),
                        release: None,
                    }
                },
                _ => WatchStep { state, release: None },
            },
            WatchState::WatchingVault { balance } => match event {
                WatchEvent::AccountUpdate { lamports, .. } => if threshold_met(*lamports, entry) {
                    WatchStep {
                        state: WatchState::Exiting { balance },
                        release: Some(Subscription::Vault),
                    }
                } else {
                    WatchStep { state, release: None }
                },
                WatchEvent::StreamEnded => WatchStep {
                    state: WatchState::Failed(WatchError::SubscriptionError),
                    release: Some(Subscription::Vault),
                },
                _ => WatchStep { state, release: None },
            },
            WatchState::Exiting { .. } => match event {
                WatchEvent::SwapFinished(ok) => if *ok {
                    WatchStep { state: WatchState::Done, release: None }
                } else {
                    WatchStep {
                        state: WatchState::Failed(WatchError::ExitSwapFailed),
                        release: None,
                    }
                },
                _ => WatchStep { state, release: None },
            },
            WatchState::Done => WatchStep { state, release: None },
            WatchState::Failed(_) => WatchStep { state, release: None },
        }
    }
}

} // verus!
