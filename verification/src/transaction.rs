//! The clock that bounds how long a staged change may wait for its clients.

use vstd::prelude::*;

verus! {

/// Longest time in milliseconds that staged changes wait for their
/// participants before they are applied regardless.
pub const MAX_TRANSACTION_MILLIS: u64 = 1000;

/// Start time of the transaction in flight, if there is one.
///
/// All staged changes share one clock: whoever stages the first change arms
/// it, later changes join the running transaction and are bound by the same
/// deadline.
#[derive(Clone, Copy, Debug)]
pub struct TransactionClock {
    start: Option<u64>,
}

/// The clock after a request to start a transaction at `now`: a running
/// clock keeps its start time.
pub open spec fn armed(clock: Option<u64>, now: u64) -> Option<u64> {
    match clock {
        Some(start) => Some(start),
        None => Some(now),
    }
}

/// Milliseconds between `start` and `now`; zero if time ran backwards.
pub open spec fn elapsed_millis(start: u64, now: u64) -> u64 {
    if now >= start {
        (now - start) as u64
    } else {
        0
    }
}

impl View for TransactionClock {
    type V = Option<u64>;

    closed spec fn view(&self) -> Option<u64> {
        self.start
    }
}

impl TransactionClock {
    /// A clock with no transaction in flight.
    pub fn new() -> (clock: Self)
        ensures
            clock@ == None::<u64>,
    {
        TransactionClock { start: None }
    }

    /// Start time of the running transaction.
    pub fn started_at(&self) -> (start: Option<u64>)
        ensures
            start == self@,
    {
        self.start
    }

    /// Whether a transaction is in flight.
    pub fn is_running(&self) -> (running: bool)
        ensures
            running == self@.is_some(),
    {
        self.start.is_some()
    }

    /// Arms the clock at `now` unless it is running already.
    pub fn start(&mut self, now: u64)
        ensures
            final(self)@ == armed(old(self)@, now),
    {
        if self.start.is_none() {
            self.start = Some(now);
        }
    }

    /// Stops the clock.
    pub fn clear(&mut self)
        ensures
            final(self)@ == None::<u64>,
    {
        self.start = None;
    }

    /// Milliseconds the running transaction has been in flight at `now`.
    pub fn elapsed(&self, now: u64) -> (elapsed: Option<u64>)
        ensures
            elapsed == match self@ {
                Some(start) => Some(elapsed_millis(start, now)),
                None => None,
            },
    {
        match self.start {
            Some(start) => Some(if now >= start { now - start } else { 0 }),
            None => None,
        }
    }
}

/// Starts a transaction at `now` if none is in flight.
///
/// This sets up the deadline after which staged changes are applied even if
/// a client has not caught up.
pub fn start_transaction(clock: &mut TransactionClock, now: u64)
    ensures
        final(clock)@ == armed(old(clock)@, now),
{
    clock.start(now);
}

} // verus!
