//! Publishing one price update to three sinks, one after the other.
//!
//! The writes themselves are the caller's: this module says which write is
//! due, takes note of how it went, and keeps the counters. A failed write
//! ends the publication; nothing is retried or undone.

use crate::metrics::{Metric, SwapMetrics};
use vstd::prelude::*;

verus! {

/// Where a price update is written to.
#[derive(Debug, Clone, Copy, PartialEq, Eq, Structural)]
pub enum Sink {
    /// The analytical store.
    Store,
    /// The publish/subscribe broker.
    Broker,
    /// The cache.
    Cache,
}

/// How far the publication of one price update has come.
#[derive(Debug, Clone, Copy, PartialEq, Eq, Structural)]
pub enum FanoutState {
    /// The write to this sink is due.
    Writing(Sink),
    /// All three writes succeeded.
    Published,
    /// The write to this sink failed, and no later write was made.
    Failed(Sink),
}

impl Sink {
    /// The counter of this sink's successful or failed writes.
    pub open spec fn metric(self, ok: bool) -> Metric {
        match self {
            Sink::Store => if ok {
                Metric::DbInsertSuccess
            } else {
                Metric::DbInsertFailure
            },
            Sink::Broker => if ok {
                Metric::MessageSendSuccess
            } else {
                Metric::MessageSendFailure
            },
            Sink::Cache => if ok {
                Metric::KvInsertSuccess
            } else {
                Metric::KvInsertFailure
            },
        }
    }

    /// Where the publication stands once the write to this sink succeeded.
    pub open spec fn following(self) -> FanoutState {
        match self {
            Sink::Store => FanoutState::Writing(Sink::Broker),
            Sink::Broker => FanoutState::Writing(Sink::Cache),
            Sink::Cache => FanoutState::Published,
        }
    }
}

impl FanoutState {
    /// The state in which every publication starts.
    pub open spec fn initial() -> FanoutState {
        FanoutState::Writing(Sink::Store)
    }

    /// The write that is due, if any.
    pub open spec fn pending(self) -> Option<Sink> {
        match self {
            FanoutState::Writing(sink) => Some(sink),
            _ => None,
        }
    }

    /// The state after the due write went as `ok` tells. Where no write is
    /// due, nothing changes.
    pub open spec fn after(self, ok: bool) -> FanoutState {
        match self {
            FanoutState::Writing(sink) => if ok {
                sink.following()
            } else {
                FanoutState::Failed(sink)
            },
            _ => self,
        }
    }

    /// The counter that the outcome of the due write raises.
    pub open spec fn counted(self, ok: bool) -> Option<Metric> {
        match self {
            FanoutState::Writing(sink) => Some(sink.metric(ok)),
            _ => None,
        }
    }

    /// The state after a run of outcomes, each that of the write then due.
    pub open spec fn after_all(self, outcomes: Seq<bool>) -> FanoutState
        decreases outcomes.len(),
    {
        if outcomes.len() == 0 {
            self
        } else {
            self.after_all(outcomes.drop_last()).after(outcomes.last())
        }
    }

    /// The writes that were attempted over a run of outcomes, in order.
    pub open spec fn attempts(self, outcomes: Seq<bool>) -> Seq<Sink>
        decreases outcomes.len(),
    {
        if outcomes.len() == 0 {
            Seq::empty()
        } else {
            let earlier = self.attempts(outcomes.drop_last());
            match self.after_all(outcomes.drop_last()).pending() {
                Some(sink) => earlier.push(sink),
                None => earlier,
            }
        }
    }

    /// The counters after a run of outcomes.
    pub open spec fn tally(self, outcomes: Seq<bool>, metrics: SwapMetrics) -> SwapMetrics
        decreases outcomes.len(),
    {
        if outcomes.len() == 0 {
            metrics
        } else {
            self.tally(outcomes.drop_last(), metrics).incremented_by(
                self.after_all(outcomes.drop_last()).counted(outcomes.last()),
            )
        }
    }

    /// Starts the publication of one price update.
    pub fn start() -> (s: FanoutState)
        ensures
            s == FanoutState::initial(),
    {
        FanoutState::Writing(Sink::Store)
    }

    /// The write that is due, if any.
    pub fn next_write(&self) -> (w: Option<Sink>)
        ensures
            w == self.pending(),
    {
        match self {
            FanoutState::Writing(sink) => Some(*sink),
            _ => None,
        }
    }

    /// Whether the publication has ended, well or badly.
    pub fn is_finished(&self) -> (r: bool)
        ensures
            r == (self.pending() is None),
    {
        match self {
            FanoutState::Writing(_) => false,
            _ => true,
        }
    }

    /// Takes note of how the due write went: counts it for its sink, and
    /// moves on to the next sink or ends the publication.
    pub fn record(self, ok: bool, metrics: &mut SwapMetrics) -> (next: FanoutState)
        ensures
            next == self.after(ok),
            *final(metrics) == old(metrics).incremented_by(self.counted(ok)),
    {
        match self {
            FanoutState::Writing(sink) => {
                match sink {
                    Sink::Store => {
                        if ok {
                            metrics.increment(Metric::DbInsertSuccess);
                            FanoutState::Writing(Sink::Broker)
                        } else {
                            metrics.increment(Metric::DbInsertFailure);
                            FanoutState::Failed(Sink::Store)
                        }
                    },
                    Sink::Broker => {
                        if ok {
                            metrics.increment(Metric::MessageSendSuccess);
                            FanoutState::Writing(Sink::Cache)
                        } else {
                            metrics.increment(Metric::MessageSendFailure);
                            FanoutState::Failed(Sink::Broker)
                        }
                    },
                    Sink::Cache => {
                        if ok {
                            metrics.increment(Metric::KvInsertSuccess);
                            FanoutState::Published
                        } else {
                            metrics.increment(Metric::KvInsertFailure);
                            FanoutState::Failed(Sink::Cache)
                        }
                    },
                }
            },
            FanoutState::Published => FanoutState::Published,
            FanoutState::Failed(sink) => FanoutState::Failed(sink),
        }
    }
}

/// The three sinks in the order in which they are written.
pub open spec fn write_order() -> Seq<Sink> {
    seq![Sink::Store, Sink::Broker, Sink::Cache]
}

/// The number of outcomes at the start of a run that are successes.
pub open spec fn leading_successes(outcomes: Seq<bool>) -> nat
    decreases outcomes.len(),
{
    if outcomes.len() == 0 {
        0
    } else if leading_successes(outcomes.drop_last()) == outcomes.len() - 1 && outcomes.last() {
        outcomes.len()
    } else {
        leading_successes(outcomes.drop_last())
    }
}

/// Where a publication stands after a run of outcomes, and what it attempted.
///
/// As long as every write succeeds the next sink in the order is due. The
/// first failure ends the publication at its sink. So the writes attempted
/// are the first sinks of the order: one more than the writes that
/// succeeded, and never more than three.
pub proof fn lemma_fanout_run(outcomes: Seq<bool>)
    ensures
        ({
            let n = leading_successes(outcomes);
            let end = FanoutState::initial().after_all(outcomes);
            let tried = FanoutState::initial().attempts(outcomes);
            &&& n <= outcomes.len()
            &&& n < outcomes.len() ==> !outcomes[n as int]
            &&& forall|i: int| 0 <= i < n ==> outcomes[i]
            &&& end == if n >= 3 {
                FanoutState::Published
            } else if n < outcomes.len() {
                FanoutState::Failed(write_order()[n as int])
            } else {
                FanoutState::Writing(write_order()[n as int])
            }
            &&& tried == write_order().take(
                if n >= 3 {
                    3
                } else if n < outcomes.len() {
                    n as int + 1
                } else {
                    n as int
                },
            )
        }),
    decreases outcomes.len(),
{
    if outcomes.len() > 0 {
        let earlier = outcomes.drop_last();
        lemma_fanout_run(earlier);
        let n = leading_successes(earlier);
        let tried = FanoutState::initial().attempts(earlier);
        let order = write_order();
        if n >= 3 {
            assert(order.take(3) =~= order);
        } else if n < earlier.len() {
        } else {
            assert(order.take(n as int).push(order[n as int]) =~= order.take(n as int + 1));
        }
        let m = leading_successes(outcomes);
        assert forall|i: int| 0 <= i < m implies outcomes[i] by {
            if i < n {
                assert(earlier[i]);
            }
        }
    }
}

/// A failed write to the store ends the publication there: the store is the
/// only sink attempted, whatever is reported afterwards, and the only
/// counter raised is that of failed store writes.
pub proof fn lemma_store_failure_aborts(outcomes: Seq<bool>, metrics: SwapMetrics)
    requires
        outcomes.len() >= 1,
        !outcomes[0],
    ensures
        FanoutState::initial().after_all(outcomes) == FanoutState::Failed(Sink::Store),
        FanoutState::initial().attempts(outcomes) == seq![Sink::Store],
        FanoutState::initial().tally(outcomes, metrics) == metrics.incremented(
            Metric::DbInsertFailure,
        ),
    decreases outcomes.len(),
{
    let start = FanoutState::initial();
    let earlier = outcomes.drop_last();
    if outcomes.len() == 1 {
        assert(earlier.len() == 0);
        assert(start.after_all(earlier) == start);
        assert(start.attempts(earlier) =~= Seq::<Sink>::empty());
        assert(start.attempts(outcomes) =~= seq![Sink::Store]);
        assert(start.tally(earlier, metrics) == metrics);
    } else {
        assert(earlier[0] == outcomes[0]);
        lemma_store_failure_aborts(earlier, metrics);
    }
}

} // verus!
