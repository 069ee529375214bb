//! Counters of what became of each observed swap.

use vstd::prelude::*;

verus! {

/// What a counter counts.
#[derive(Debug, Clone, Copy, PartialEq, Eq, Structural)]
pub enum Metric {
    SkippedTinySwaps,
    SkippedZeroSwaps,
    SkippedUnexpectedNumberOfTokens,
    MultiHopSwap,
    SkippedNonWsol,
    SkippedNoMetadata,
    DbInsertSuccess,
    DbInsertFailure,
    MessageSendSuccess,
    MessageSendFailure,
    KvInsertSuccess,
    KvInsertFailure,
}

/// One counter per [`Metric`]. A counter only ever grows, and stops at
/// `u64::MAX`.
#[derive(Debug, Clone, Copy, PartialEq, Eq, Structural)]
pub struct SwapMetrics {
    pub skipped_tiny_swaps: u64,
    pub skipped_zero_swaps: u64,
    pub skipped_unexpected_number_of_tokens: u64,
    pub multi_hop_swap: u64,
    pub skipped_non_wsol: u64,
    pub skipped_no_metadata: u64,
    pub db_insert_success: u64,
    pub db_insert_failure: u64,
    pub message_send_success: u64,
    pub message_send_failure: u64,
    pub kv_insert_success: u64,
    pub kv_insert_failure: u64,
}

/// A count one higher, unless it stands at the ceiling.
pub open spec fn next_count(count: u64) -> u64 {
    if count < u64::MAX {
        (count + 1) as u64
    } else {
        count
    }
}

impl SwapMetrics {
    /// The count of `metric`.
    pub open spec fn count(self, metric: Metric) -> u64 {
        match metric {
            Metric::SkippedTinySwaps => self.skipped_tiny_swaps,
            Metric::SkippedZeroSwaps => self.skipped_zero_swaps,
            Metric::SkippedUnexpectedNumberOfTokens => self.skipped_unexpected_number_of_tokens,
            Metric::MultiHopSwap => self.multi_hop_swap,
            Metric::SkippedNonWsol => self.skipped_non_wsol,
            Metric::SkippedNoMetadata => self.skipped_no_metadata,
            Metric::DbInsertSuccess => self.db_insert_success,
            Metric::DbInsertFailure => self.db_insert_failure,
            Metric::MessageSendSuccess => self.message_send_success,
            Metric::MessageSendFailure => self.message_send_failure,
            Metric::KvInsertSuccess => self.kv_insert_success,
            Metric::KvInsertFailure => self.kv_insert_failure,
        }
    }

    /// These counters after one more event of kind `metric`.
    pub open spec fn incremented(self, metric: Metric) -> SwapMetrics {
        match metric {
            Metric::SkippedTinySwaps => SwapMetrics {
                skipped_tiny_swaps: next_count(self.skipped_tiny_swaps),
                ..self
            },
            Metric::SkippedZeroSwaps => SwapMetrics {
                skipped_zero_swaps: next_count(self.skipped_zero_swaps),
                ..self
            },
            Metric::SkippedUnexpectedNumberOfTokens => SwapMetrics {
                skipped_unexpected_number_of_tokens: next_count(
                    self.skipped_unexpected_number_of_tokens,
                ),
                ..self
            },
            Metric::MultiHopSwap => SwapMetrics {
                multi_hop_swap: next_count(self.multi_hop_swap),
                ..self
            },
            Metric::SkippedNonWsol => SwapMetrics {
                skipped_non_wsol: next_count(self.skipped_non_wsol),
                ..self
            },
            Metric::SkippedNoMetadata => SwapMetrics {
                skipped_no_metadata: next_count(self.skipped_no_metadata),
                ..self
            },
            Metric::DbInsertSuccess => SwapMetrics {
                db_insert_success: next_count(self.db_insert_success),
                ..self
            },
            Metric::DbInsertFailure => SwapMetrics {
                db_insert_failure: next_count(self.db_insert_failure),
                ..self
            },
            Metric::MessageSendSuccess => SwapMetrics {
                message_send_success: next_count(self.message_send_success),
                ..self
            },
            Metric::MessageSendFailure => SwapMetrics {
                message_send_failure: next_count(self.message_send_failure),
                ..self
            },
            Metric::KvInsertSuccess => SwapMetrics {
                kv_insert_success: next_count(self.kv_insert_success),
                ..self
            },
            Metric::KvInsertFailure => SwapMetrics {
                kv_insert_failure: next_count(self.kv_insert_failure),
                ..self
            },
        }
    }

    /// These counters after an optional event.
    pub open spec fn incremented_by(self, metric: Option<Metric>) -> SwapMetrics {
        match metric {
            Some(m) => self.incremented(m),
            None => self,
        }
    }

    /// Counters that have counted nothing.
    pub open spec fn zero() -> SwapMetrics {
        SwapMetrics {
            skipped_tiny_swaps: 0,
            skipped_zero_swaps: 0,
            skipped_unexpected_number_of_tokens: 0,
            multi_hop_swap: 0,
            skipped_non_wsol: 0,
            skipped_no_metadata: 0,
            db_insert_success: 0,
            db_insert_failure: 0,
            message_send_success: 0,
            message_send_failure: 0,
            kv_insert_success: 0,
            kv_insert_failure: 0,
        }
    }

    /// Counters that have counted nothing.
    pub fn new() -> (m: SwapMetrics)
        ensures
            m == SwapMetrics::zero(),
            forall|metric: Metric| m.count(metric) == 0,
    {
        SwapMetrics {
            skipped_tiny_swaps: 0,
            skipped_zero_swaps: 0,
            skipped_unexpected_number_of_tokens: 0,
            multi_hop_swap: 0,
            skipped_non_wsol: 0,
            skipped_no_metadata: 0,
            db_insert_success: 0,
            db_insert_failure: 0,
            message_send_success: 0,
            message_send_failure: 0,
            kv_insert_success: 0,
            kv_insert_failure: 0,
        }
    }

    /// The count of `metric`.
    pub fn get(&self, metric: Metric) -> (c: u64)
        ensures
            c == self.count(metric),
    {
        match metric {
            Metric::SkippedTinySwaps => self.skipped_tiny_swaps,
            Metric::SkippedZeroSwaps => self.skipped_zero_swaps,
            Metric::SkippedUnexpectedNumberOfTokens => self.skipped_unexpected_number_of_tokens,
            Metric::MultiHopSwap => self.multi_hop_swap,
            Metric::SkippedNonWsol => self.skipped_non_wsol,
            Metric::SkippedNoMetadata => self.skipped_no_metadata,
            Metric::DbInsertSuccess => self.db_insert_success,
            Metric::DbInsertFailure => self.db_insert_failure,
            Metric::MessageSendSuccess => self.message_send_success,
            Metric::MessageSendFailure => self.message_send_failure,
            Metric::KvInsertSuccess => self.kv_insert_success,
            Metric::KvInsertFailure => self.kv_insert_failure,
        }
    }

    /// Counts one more event of kind `metric`.
    pub fn increment(&mut self, metric: Metric)
        ensures
            *final(self) == old(self).incremented(metric),
    {
        match metric {
            Metric::SkippedTinySwaps => {
                self.skipped_tiny_swaps = self.skipped_tiny_swaps.saturating_add(1);
            },
            Metric::SkippedZeroSwaps => {
                self.skipped_zero_swaps = self.skipped_zero_swaps.saturating_add(1);
            },
            Metric::SkippedUnexpectedNumberOfTokens => {
                self.skipped_unexpected_number_of_tokens =
                    self.skipped_unexpected_number_of_tokens.saturating_add(1);
            },
            Metric::MultiHopSwap => {
                self.multi_hop_swap = self.multi_hop_swap.saturating_add(1);
            },
            Metric::SkippedNonWsol => {
                self.skipped_non_wsol = self.skipped_non_wsol.saturating_add(1);
            },
            Metric::SkippedNoMetadata => {
                self.skipped_no_metadata = self.skipped_no_metadata.saturating_add(1);
            },
            Metric::DbInsertSuccess => {
                self.db_insert_success = self.db_insert_success.saturating_add(1);
            },
            Metric::DbInsertFailure => {
                self.db_insert_failure = self.db_insert_failure.saturating_add(1);
            },
            Metric::MessageSendSuccess => {
                self.message_send_success = self.message_send_success.saturating_add(1);
            },
            Metric::MessageSendFailure => {
                self.message_send_failure = self.message_send_failure.saturating_add(1);
            },
            Metric::KvInsertSuccess => {
                self.kv_insert_success = self.kv_insert_success.saturating_add(1);
            },
            Metric::KvInsertFailure => {
                self.kv_insert_failure = self.kv_insert_failure.saturating_add(1);
            },
        }
    }
}

/// Counting an event raises its own counter by one, short of the ceiling,
/// and leaves every other counter as it was.
pub proof fn lemma_increment_counts(before: SwapMetrics, metric: Metric, other: Metric)
    ensures
        before.incremented(metric).count(metric) == next_count(before.count(metric)),
        other != metric ==> before.incremented(metric).count(other) == before.count(other),
        before.incremented(metric).count(other) >= before.count(other),
{
}

} // verus!
