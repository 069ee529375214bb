//! What holds of every watch, whatever the caller reports to it.

use crate::balance::payload_balance;
use crate::seller_service::{
    exit_due, stop_loss_met, take_profit_met, Command, Subscription, WatchError, WatchEvent,
    WatchState, BALANCE_TIMEOUT_SECS,
};
use vstd::prelude::*;

verus! {

impl WatchState {
    /// The place of a state in the course of a watch.
    pub open spec fn rank(self) -> nat {
        match self {
            WatchState::QueryingBalance => 0,
            WatchState::SubscribingBalance => 1,
            WatchState::AwaitingBalance => 2,
            WatchState::SubscribingVault { .. } => 3,
            WatchState::WatchingVault { .. } => 4,
            WatchState::Exiting { .. } => 5,
            WatchState::Done => 6,
            WatchState::Failed(_) => 6,
        }
    }

    /// The subscription that is opened on an event: the one that the state
    /// that follows holds and this one did not.
    pub open spec fn opened(self, event: WatchEvent, entry: u64) -> Option<Subscription> {
        if self.held() is None {
            self.next(event, entry).held()
        } else {
            None
        }
    }

    /// The state after a run of events.
    pub open spec fn after_all(self, events: Seq<WatchEvent>, entry: u64) -> WatchState
        decreases events.len(),
    {
        if events.len() == 0 {
            self
        } else {
            self.after_all(events.drop_last(), entry).next(events.last(), entry)
        }
    }

    /// The subscriptions released over a run of events, in order.
    pub open spec fn releases(self, events: Seq<WatchEvent>, entry: u64) -> Seq<Subscription>
        decreases events.len(),
    {
        if events.len() == 0 {
            Seq::empty()
        } else {
            let earlier = self.releases(events.drop_last(), entry);
            match self.after_all(events.drop_last(), entry).released(events.last(), entry) {
                Some(s) => earlier.push(s),
                None => earlier,
            }
        }
    }

    /// The subscriptions opened over a run of events, in order.
    pub open spec fn openings(self, events: Seq<WatchEvent>, entry: u64) -> Seq<Subscription>
        decreases events.len(),
    {
        if events.len() == 0 {
            Seq::empty()
        } else {
            let earlier = self.openings(events.drop_last(), entry);
            match self.after_all(events.drop_last(), entry).opened(events.last(), entry) {
                Some(s) => earlier.push(s),
                None => earlier,
            }
        }
    }
}

/// How often a subscription occurs in a list.
pub open spec fn occurrences(list: Seq<Subscription>, s: Subscription) -> nat
    decreases list.len(),
{
    if list.len() == 0 {
        0
    } else if list.last() == s {
        occurrences(list.drop_last(), s) + 1
    } else {
        occurrences(list.drop_last(), s)
    }
}

/// One if the state holds the subscription open, zero if not.
pub open spec fn holding(state: WatchState, s: Subscription) -> nat {
    if state.held() == Some(s) {
        1
    } else {
        0
    }
}

/// No step takes a watch back: the phase never falls, a phase is entered
/// from the one before it or left for the end, and a watch that has ended
/// stays as it is.
pub proof fn lemma_step_never_goes_back(state: WatchState, event: WatchEvent, entry: u64)
    ensures
        state.next(event, entry).phase() >= state.phase(),
        state.next(event, entry).rank() >= state.rank(),
        state.next(event, entry).phase() <= state.phase() + 1 || state.next(
            event,
            entry,
        ) is Failed,
        state.is_final() ==> state.next(event, entry) == state,
        state.next(event, entry) is Done ==> state is Done || state is Exiting,
{
}

/// The ways into each state. The balance is had from the query or from the
/// token account's first update; the vault is watched once its subscription
/// is open; the sale starts from the watch of the vault, on an update whose
/// reserve calls for the exit; and the position is sold only by a sale that
/// went through.
pub proof fn lemma_ways_into_states(state: WatchState, event: WatchEvent, entry: u64)
    requires
        state.next(event, entry) != state,
    ensures
        state.next(event, entry) is QueryingBalance ==> false,
        state.next(event, entry) is SubscribingBalance ==> state is QueryingBalance
            && event == WatchEvent::BalanceQueried(None),
        state.next(event, entry) is AwaitingBalance ==> state is SubscribingBalance
            && event == WatchEvent::Subscribed(true),
        state.next(event, entry) is SubscribingVault ==> (state is QueryingBalance
            && event is BalanceQueried) || (state is AwaitingBalance && event is AccountUpdate),
        state.next(event, entry) matches WatchState::WatchingVault { balance } ==> state == (
        WatchState::SubscribingVault { balance }) && event == WatchEvent::Subscribed(true),
        state.next(event, entry) matches WatchState::Exiting { balance } ==> state == (
        WatchState::WatchingVault { balance }) && reported_lamports(event) is Some && exit_due(
            reported_lamports(event)->0,
            entry,
        ),
        state.next(event, entry) is Done ==> state is Exiting && event == WatchEvent::SwapFinished(
            true,
        ),
        state.next(event, entry) is Failed ==> !state.is_final(),
{
}

/// A step releases nothing but the subscription that was open, and it
/// releases that one whenever the watch goes on without it. A watch that has
/// ended holds none.
pub proof fn lemma_step_releases_what_was_held(state: WatchState, event: WatchEvent, entry: u64)
    ensures
        state.released(event, entry) is Some ==> state.released(event, entry) == state.held(),
        state.held() is Some ==> state.next(event, entry).held() == state.held()
            || state.released(event, entry) == state.held(),
        state.released(event, entry) is Some ==> state.next(event, entry).held() is None,
        state.next(event, entry).is_final() ==> state.next(event, entry).held() is None,
        state.next(event, entry).held() is Some ==> state.next(event, entry).held()
            == state.held() || (state.due() == Command::Subscribe(
            state.next(event, entry).held()->0,
        ) && event == WatchEvent::Subscribed(true)),
{
}

/// Over any run of events from the start of a watch, each subscription is
/// opened at most once, and released exactly once if it was opened and is
/// open no more.
pub proof fn lemma_released_exactly_once(events: Seq<WatchEvent>, entry: u64, s: Subscription)
    ensures
        ({
            let start = WatchState::initial();
            let end = start.after_all(events, entry);
            let opened = occurrences(start.openings(events, entry), s);
            let released = occurrences(start.releases(events, entry), s);
            &&& opened <= 1
            &&& opened == released + holding(end, s)
            &&& end.is_final() ==> released == opened
        }),
    decreases events.len(),
{
    lemma_ledger(events, entry, s);
}

/// The ledger of one subscription over a run from the start of a watch.
proof fn lemma_ledger(events: Seq<WatchEvent>, entry: u64, s: Subscription)
    ensures
        ({
            let start = WatchState::initial();
            let end = start.after_all(events, entry);
            let opened = occurrences(start.openings(events, entry), s);
            let released = occurrences(start.releases(events, entry), s);
            &&& opened <= 1
            &&& opened == released + holding(end, s)
            &&& s == Subscription::TokenAccount && end.rank() <= 1 ==> opened == 0
            &&& s == Subscription::Vault && end.rank() <= 3 ==> opened == 0
        }),
    decreases events.len(),
{
    let start = WatchState::initial();
    if events.len() > 0 {
        let earlier = events.drop_last();
        lemma_ledger(earlier, entry, s);
        let before = start.after_all(earlier, entry);
        let event = events.last();
        lemma_step_never_goes_back(before, event, entry);
        lemma_step_releases_what_was_held(before, event, entry);
        let o = start.openings(earlier, entry);
        let r = start.releases(earlier, entry);
        match before.opened(event, entry) {
            Some(x) => {
                assert(o.push(x).drop_last() =~= o);
            },
            None => {},
        }
        match before.released(event, entry) {
            Some(x) => {
                assert(r.push(x).drop_last() =~= r);
            },
            None => {},
        }
    }
}

/// While the first update of the token account is awaited, the wait is
/// limited to ten seconds. If the time runs out the watch fails with a
/// timeout. If an update comes whose data holds a balance, the watch goes on
/// with that balance. Either way the subscription is released on that step,
/// and on no later one.
pub proof fn lemma_balance_wait(event: WatchEvent, later: Seq<WatchEvent>, entry: u64)
    ensures
        WatchState::AwaitingBalance.due() == (Command::AwaitUpdate {
            subscription: Subscription::TokenAccount,
            timeout_secs: Some(BALANCE_TIMEOUT_SECS),
        }),
        BALANCE_TIMEOUT_SECS == 10,
        event is TimedOut ==> WatchState::AwaitingBalance.next(event, entry) == WatchState::Failed(
            WatchError::Timeout,
        ) && WatchState::AwaitingBalance.released(event, entry) == Some(
            Subscription::TokenAccount,
        ),
        event matches WatchEvent::AccountUpdate { data, .. } ==> (payload_balance(data) matches Ok(
            balance,
        ) ==> WatchState::AwaitingBalance.next(event, entry) == (WatchState::SubscribingVault {
            balance,
        }) && WatchState::AwaitingBalance.released(event, entry) == Some(
            Subscription::TokenAccount,
        )),
        WatchState::AwaitingBalance.next(event, entry) != WatchState::AwaitingBalance
            ==> occurrences(
            WatchState::AwaitingBalance.next(event, entry).releases(later, entry),
            Subscription::TokenAccount,
        ) == 0,
{
    let next = WatchState::AwaitingBalance.next(event, entry);
    if next != WatchState::AwaitingBalance {
        lemma_no_release_once_past(next, later, entry);
    }
}

/// A watch that has the balance, or has ended, releases the token account's
/// subscription no more.
proof fn lemma_no_release_once_past(state: WatchState, events: Seq<WatchEvent>, entry: u64)
    requires
        state.rank() >= 3,
    ensures
        state.after_all(events, entry).rank() >= 3,
        occurrences(state.releases(events, entry), Subscription::TokenAccount) == 0,
    decreases events.len(),
{
    if events.len() > 0 {
        let earlier = events.drop_last();
        lemma_no_release_once_past(state, earlier, entry);
        let before = state.after_all(earlier, entry);
        lemma_step_never_goes_back(before, events.last(), entry);
        let r = state.releases(earlier, entry);
        match before.released(events.last(), entry) {
            Some(x) => {
                assert(r.push(x).drop_last() =~= r);
            },
            None => {},
        }
    }
}

/// The reserve reported by an event, if it is an account update.
pub open spec fn reported_lamports(event: WatchEvent) -> Option<u64> {
    match event {
        WatchEvent::AccountUpdate { lamports, .. } => Some(lamports),
        _ => None,
    }
}

/// A watch of the vault exits on the first update whose reserve calls for
/// it, and on none before: through every update that stays strictly between
/// the two thresholds the watch goes on, and the first one that does not
/// releases the vault's subscription and starts the sale of the balance.
pub proof fn lemma_exit_on_first_threshold(
    balance: u64,
    entry: u64,
    updates: Seq<WatchEvent>,
    first: int,
)
    requires
        0 <= first < updates.len(),
        forall|i: int| 0 <= i <= first ==> reported_lamports(#[trigger] updates[i]) is Some,
        forall|i: int|
            0 <= i < first ==> !exit_due(reported_lamports(#[trigger] updates[i])->0, entry),
        exit_due(reported_lamports(updates[first])->0, entry),
    ensures
        forall|n: int|
            0 <= n <= first ==> (WatchState::WatchingVault { balance }).after_all(
                #[trigger] updates.take(n),
                entry,
            ) == (WatchState::WatchingVault { balance }),
        forall|n: int|
            0 <= n <= first ==> (WatchState::WatchingVault { balance }).releases(
                #[trigger] updates.take(n),
                entry,
            ) == Seq::<Subscription>::empty(),
        (WatchState::WatchingVault { balance }).after_all(updates.take(first + 1), entry) == (
        WatchState::Exiting { balance }),
        (WatchState::WatchingVault { balance }).releases(updates.take(first + 1), entry)
            == seq![Subscription::Vault],
        (WatchState::Exiting { balance }).due() == (Command::ExecuteSwap { amount: balance }),
{
    let watching = WatchState::WatchingVault { balance };
    assert forall|n: int| 0 <= n <= first implies watching.after_all(
        #[trigger] updates.take(n),
        entry,
    ) == watching && watching.releases(updates.take(n), entry) == Seq::<Subscription>::empty() by {
        lemma_quiet_updates(balance, entry, updates, n);
    }
    lemma_quiet_updates(balance, entry, updates, first);
    let run = updates.take(first + 1);
    assert(run.drop_last() =~= updates.take(first));
    assert(run.last() == updates[first]);
    assert(watching.releases(run, entry) =~= seq![Subscription::Vault]);
}

/// Updates that call for no exit leave a watch of the vault as it is.
proof fn lemma_quiet_updates(balance: u64, entry: u64, updates: Seq<WatchEvent>, n: int)
    requires
        0 <= n <= updates.len(),
        forall|i: int| 0 <= i < n ==> reported_lamports(#[trigger] updates[i]) is Some,
        forall|i: int| 0 <= i < n ==> !exit_due(reported_lamports(#[trigger] updates[i])->0, entry),
    ensures
        (WatchState::WatchingVault { balance }).after_all(updates.take(n), entry) == (
        WatchState::WatchingVault { balance }),
        (WatchState::WatchingVault { balance }).releases(updates.take(n), entry) == Seq::<
            Subscription,
        >::empty(),
    decreases n,
{
    if n > 0 {
        lemma_quiet_updates(balance, entry, updates, n - 1);
        let run = updates.take(n);
        assert(run.drop_last() =~= updates.take(n - 1));
        assert(run.last() == updates[n - 1]);
    }
}

/// When the reserve only grows and starts above the level at which the loss
/// is stopped, the exit comes with the first update that reaches 1.4 times
/// the reserve at entry, and with none below that level.
pub proof fn lemma_exit_on_first_crossing(
    balance: u64,
    entry: u64,
    updates: Seq<WatchEvent>,
    crossing: int,
)
    requires
        0 <= crossing < updates.len(),
        forall|i: int| 0 <= i <= crossing ==> reported_lamports(#[trigger] updates[i]) is Some,
        forall|i: int, j: int|
            0 <= i <= j <= crossing ==> reported_lamports(updates[i])->0 <= reported_lamports(
                updates[j],
            )->0,
        !stop_loss_met(reported_lamports(updates[0])->0, entry),
        forall|i: int|
            0 <= i < crossing ==> !take_profit_met(
                reported_lamports(#[trigger] updates[i])->0,
                entry,
            ),
        take_profit_met(reported_lamports(updates[crossing])->0, entry),
    ensures
        forall|n: int|
            0 <= n <= crossing ==> (WatchState::WatchingVault { balance }).after_all(
                #[trigger] updates.take(n),
                entry,
            ) == (WatchState::WatchingVault { balance }),
        (WatchState::WatchingVault { balance }).after_all(updates.take(crossing + 1), entry) == (
        WatchState::Exiting { balance }),
        (WatchState::WatchingVault { balance }).releases(updates.take(crossing + 1), entry)
            == seq![Subscription::Vault],
{
    assert forall|i: int| 0 <= i < crossing implies !exit_due(
        reported_lamports(#[trigger] updates[i])->0,
        entry,
    ) by {
        assert(reported_lamports(updates[0])->0 <= reported_lamports(updates[i])->0);
    }
    lemma_exit_on_first_threshold(balance, entry, updates, crossing);
}

} // verus!
