use vstd::prelude::*;

verus! {

/// Every way a command or a query of the ledger can fail.
#[derive(Clone, Copy, Debug, PartialEq, Eq)]
pub enum ContractError {
    /// An admin-only command came from somebody else.
    Unauthorized {},
    /// The treasury fee is outside 1..=10000 basis points.
    IncorrectFee {},
    /// The sender already holds a stake in the event.
    CannotPredictTwice {},
    /// The event was resolved before.
    EventEnded { event_id: u64 },
    /// No such event, bet or history.
    NotFound {},
    /// The event was started and resolved before.
    EventEndedAndResolved { event_id: u64 },
    /// The event was started before.
    EventExecuted { event_id: u64 },
    /// The event has not been started.
    EventNotStarted {},
    /// No funds of the accepted denomination came with the bet.
    NoBetFound {},
    /// The chosen option is not one of the event's options.
    InvalidOption { option: u64 },
    /// A pool total would exceed what 128 bits hold.
    PoolOverflow {},
}

} // verus!
