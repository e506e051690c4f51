//! Decisions of the off-chain crank operator. The operator listens for
//! `RandomNumRequested` events, holds one event at a time, and turns the
//! crank once the event's delay has passed. The driver performs each
//! action (sleeping, reading the slot, taking the next queued event,
//! sending the crank transaction) and feeds the observations back.
use vstd::prelude::*;
use crate::constants::DELAY;
use crate::events::RandomNumRequested;

verus! {

/// Loop iterations between two re-subscriptions to the event stream.
pub const LISTEN_ITERATIONS: u32 = 30;

/// Pause when no event is queued or held.
pub const IDLE_SLEEP_MS: u64 = 1000;

/// Pause when the held event is not due yet.
pub const NOT_DUE_SLEEP_MS: u64 = 500;

/// Pause after a crank transaction fails.
pub const RETRY_SLEEP_MS: u64 = 100;

/// What the driver does next.
#[derive(Clone, Copy, Debug, PartialEq, Eq, Structural)]
pub enum OperatorAction {
    /// Sleep this many milliseconds; the iteration ends.
    Sleep(u64),
    /// Read the current slot and, when no event is held, take the next queued event.
    Poll,
    /// The event just taken is stale and is dropped; the iteration ends without counting.
    DropStale,
    /// Send a crank transaction.
    TurnCrank,
    /// The iteration ends.
    Continue,
}

impl OperatorAction {
    /// Whether the iteration that ended with this action counts toward the
    /// listening cycle.
    pub fn counts_iteration(&self) -> (res: bool)
        ensures
            res <==> !(*self is DropStale),
    {
        match self {
            OperatorAction::DropStale => false,
            _ => true,
        }
    }
}

/// The operator's state: the event being served and the slot of its last
/// successful crank turn.
#[derive(Clone, Copy, Debug)]
pub struct CrankOperator {
    pub current_event: Option<RandomNumRequested>,
    pub last_slot: u64,
}

/// The crank may be turned for `event` at `slot`.
pub open spec fn event_due(event: RandomNumRequested, slot: u64) -> bool {
    slot >= event.request_slot + DELAY
}

/// The slot arithmetic on `event` stays within `u64`.
pub open spec fn event_in_range(event: RandomNumRequested) -> bool {
    event.request_slot + DELAY <= u64::MAX
}

impl CrankOperator {
    /// An event that a crank turn after it already served.
    pub open spec fn is_stale(&self, event: RandomNumRequested) -> bool {
        self.last_slot > event.request_slot + DELAY
    }

    /// The held event, if any, stays within slot arithmetic.
    pub open spec fn wf(&self) -> bool {
        self.current_event matches Some(e) ==> event_in_range(e)
    }

    /// A fresh operator: no event held, no crank turned yet.
    pub fn init() -> (res: CrankOperator)
        ensures
            res.current_event is None,
            res.last_slot == 0,
            res.wf(),
    {
        CrankOperator { current_event: None, last_slot: 0 }
    }

    /// Start of an iteration: idle when nothing is queued or held.
    pub fn on_wake(&self, queue_empty: bool) -> (res: OperatorAction)
        ensures
            res == (if queue_empty && self.current_event is None {
                OperatorAction::Sleep(IDLE_SLEEP_MS)
            } else {
                OperatorAction::Poll
            }),
    {
        if queue_empty && self.current_event.is_none() {
            OperatorAction::Sleep(IDLE_SLEEP_MS)
        } else {
            OperatorAction::Poll
        }
    }

    /// After polling: `received` is the event taken from the queue, which
    /// happens exactly when no event was held. A stale event is dropped;
    /// otherwise the event is held, and the crank is turned when it is due.
    pub fn on_poll(&mut self, current_slot: u64, received: Option<RandomNumRequested>) -> (res: OperatorAction)
        requires
            old(self).wf(),
            received is Some <==> old(self).current_event is None,
            received matches Some(e) ==> event_in_range(e),
        ensures
            final(self).wf(),
            final(self).last_slot == old(self).last_slot,
            res == OperatorAction::TurnCrank ==> (final(self).current_event matches Some(e)
                && event_due(e, current_slot)),
            received matches Some(e) ==> (old(self).is_stale(e) ==> {
                &&& res == OperatorAction::DropStale
                &&& *final(self) == *old(self)
            }),
            old(self).current_event matches Some(e) ==> {
                &&& final(self).current_event == Some(e)
                &&& res == (if event_due(e, current_slot) { OperatorAction::TurnCrank } else {
                    OperatorAction::Sleep(NOT_DUE_SLEEP_MS)
                })
            },
            received matches Some(e) ==> (!old(self).is_stale(e) ==> {
                &&& final(self).current_event == Some(e)
                &&& res == (if event_due(e, current_slot) { OperatorAction::TurnCrank } else {
                    OperatorAction::Sleep(NOT_DUE_SLEEP_MS)
                })
            }),
    {
        let event = match self.current_event {
            Some(e) => e,
            None => {
                let e = match received {
                    Some(e) => e,
                    None => {
                        proof { assert(false); }
                        return OperatorAction::Continue;
                    },
                };
                if self.last_slot > e.request_slot + DELAY {
                    return OperatorAction::DropStale;
                }
                self.current_event = Some(e);
                e
            },
        };
        if current_slot >= event.request_slot + DELAY {
            OperatorAction::TurnCrank
        } else {
            OperatorAction::Sleep(NOT_DUE_SLEEP_MS)
        }
    }

    /// After a crank transaction for the held event: success releases the
    /// event and records the slot; failure keeps the event for a retry.
    pub fn on_crank_result(&mut self, current_slot: u64, succeeded: bool) -> (res: OperatorAction)
        requires
            old(self).wf(),
        ensures
            final(self).wf(),
            succeeded ==> {
                &&& final(self).current_event is None
                &&& final(self).last_slot == current_slot
                &&& res == OperatorAction::Continue
            },
            !succeeded ==> {
                &&& *final(self) == *old(self)
                &&& res == OperatorAction::Sleep(RETRY_SLEEP_MS)
            },
    {
        if succeeded {
            self.current_event = None;
            self.last_slot = current_slot;
            OperatorAction::Continue
        } else {
            OperatorAction::Sleep(RETRY_SLEEP_MS)
        }
    }
}

} // verus!
