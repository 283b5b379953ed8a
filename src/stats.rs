use vstd::prelude::*;

verus! {

/// The counters of a bridge, as mathematical values.
pub struct StatsView {
    pub skipped: nat,
    pub routed: nat,
    pub errors: nat,
    pub losses: nat,
    pub start_time: nat,
}

impl StatsView {
    /// Counters of a bridge that started at `start_time`: all at zero.
    pub open spec fn started(start_time: nat) -> StatsView {
        StatsView { skipped: 0, routed: 0, errors: 0, losses: 0, start_time }
    }

    /// One inbound message accepted for dispatch; `skipped` also counts it
    /// when the destination filter excludes it.
    pub open spec fn after_message(self, skipped: bool) -> StatsView {
        StatsView {
            routed: self.routed + 1,
            skipped: if skipped {
                self.skipped + 1
            } else {
                self.skipped
            },
            ..self
        }
    }

    /// The outcome of one delivery: a failure is counted, a success is not.
    pub open spec fn after_delivery(self, delivered: bool) -> StatsView {
        StatsView {
            errors: if delivered {
                self.errors
            } else {
                self.errors + 1
            },
            ..self
        }
    }

    /// One loss of the inbound connection.
    pub open spec fn after_connection_loss(self) -> StatsView {
        StatsView { losses: self.losses + 1, ..self }
    }

    /// A message is skipped only after it was routed.
    pub open spec fn wf(self) -> bool {
        self.skipped <= self.routed
    }
}

/// Milliseconds from `start` to `now`; zero where the clock reads earlier
/// than the start.
pub open spec fn elapsed_between(start: nat, now: nat) -> nat {
    if now >= start {
        (now - start) as nat
    } else {
        0
    }
}

/// The live counters of a bridge. Counters only ever grow; `start_time` is
/// fixed at creation, in milliseconds since the Unix epoch.
pub struct BridgeStats {
    skipped_messages: u64,
    routed_messages: u64,
    errors: u64,
    connection_error: u64,
    start_time: u64,
}

/// An immutable copy of the counters, for reporting.
pub struct StatsSnapshot {
    pub skipped_messages: u64,
    pub routed_messages: u64,
    pub errors: u64,
    pub connection_error: u64,
    pub start_time: u64,
    pub elapsed_ms: u64,
}

impl View for BridgeStats {
    type V = StatsView;

    closed spec fn view(&self) -> StatsView {
        StatsView {
            skipped: self.skipped_messages as nat,
            routed: self.routed_messages as nat,
            errors: self.errors as nat,
            losses: self.connection_error as nat,
            start_time: self.start_time as nat,
        }
    }
}

impl BridgeStats {
    /// Counters of a bridge started at `start_time`, all at zero.
    pub fn new(start_time: u64) -> (r: BridgeStats)
        ensures
            r@ == StatsView::started(start_time as nat),
            r@.wf(),
    {
        BridgeStats {
            skipped_messages: 0,
            routed_messages: 0,
            errors: 0,
            connection_error: 0,
            start_time,
        }
    }

    pub fn skipped_messages(&self) -> (r: u64)
        ensures
            r as nat == self@.skipped,
    {
        self.skipped_messages
    }

    pub fn routed_messages(&self) -> (r: u64)
        ensures
            r as nat == self@.routed,
    {
        self.routed_messages
    }

    pub fn errors(&self) -> (r: u64)
        ensures
            r as nat == self@.errors,
    {
        self.errors
    }

    pub fn connection_error(&self) -> (r: u64)
        ensures
            r as nat == self@.losses,
    {
        self.connection_error
    }

    pub fn start_time(&self) -> (r: u64)
        ensures
            r as nat == self@.start_time,
    {
        self.start_time
    }

    /// Counts one inbound message as routed, and as skipped too where
    /// `skipped` holds.
    pub fn record_message(&mut self, skipped: bool)
        requires
            old(self)@.routed < u64::MAX,
            old(self)@.skipped < u64::MAX,
        ensures
            final(self)@ == old(self)@.after_message(skipped),
            old(self)@.wf() ==> final(self)@.wf(),
    {
        self.routed_messages = self.routed_messages + 1;
        if skipped {
            self.skipped_messages = self.skipped_messages + 1;
        }
    }

    /// Counts the outcome of one delivery: only a failure changes a counter.
    pub fn record_delivery(&mut self, delivered: bool)
        requires
            old(self)@.errors < u64::MAX,
        ensures
            final(self)@ == old(self)@.after_delivery(delivered),
            old(self)@.wf() ==> final(self)@.wf(),
    {
        if !delivered {
            self.errors = self.errors + 1;
        }
    }

    /// Counts one loss of the inbound connection.
    pub fn record_connection_loss(&mut self)
        requires
            old(self)@.losses < u64::MAX,
        ensures
            final(self)@ == old(self)@.after_connection_loss(),
            old(self)@.wf() ==> final(self)@.wf(),
    {
        self.connection_error = self.connection_error + 1;
    }

    /// A copy of the counters, with the time elapsed from the start to `now`.
    pub fn snapshot(&self, now: u64) -> (r: StatsSnapshot)
        ensures
            r.skipped_messages as nat == self@.skipped,
            r.routed_messages as nat == self@.routed,
            r.errors as nat == self@.errors,
            r.connection_error as nat == self@.losses,
            r.start_time as nat == self@.start_time,
            r.elapsed_ms as nat == elapsed_between(self@.start_time, now as nat),
    {
        let elapsed_ms: u64 = if now >= self.start_time {
            now - self.start_time
        } else {
            0
        };
        StatsSnapshot {
            skipped_messages: self.skipped_messages,
            routed_messages: self.routed_messages,
            errors: self.errors,
            connection_error: self.connection_error,
            start_time: self.start_time,
            elapsed_ms,
        }
    }
}

} // verus!
