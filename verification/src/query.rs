use crate::error::ContractError;
use crate::msg::QueryMsg;
use crate::state::{
    bet_of, bets_view, events_view, history_of, Bet, BetView, Event, EventView, Ledger,
    LedgerView,
};
use vstd::prelude::*;

verus! {

broadcast use vstd::std_specs::hash::group_hash_axioms;

/// What a query hands back.
#[derive(Debug, PartialEq, Eq)]
pub enum QueryResponse {
    Event(Event),
    Events(Vec<Event>),
    Bet(Bet),
    Bets(Vec<Bet>),
}

/// The mathematical value of a [`QueryResponse`].
pub enum QueryAnswer {
    Event(EventView),
    Events(Seq<EventView>),
    Bet(BetView),
    Bets(Seq<BetView>),
}

impl View for QueryResponse {
    type V = QueryAnswer;

    open spec fn view(&self) -> QueryAnswer {
        match self {
            QueryResponse::Event(e) => QueryAnswer::Event(e@),
            QueryResponse::Events(v) => QueryAnswer::Events(events_view(v@)),
            QueryResponse::Bet(b) => QueryAnswer::Bet(b@),
            QueryResponse::Bets(v) => QueryAnswer::Bets(bets_view(v@)),
        }
    }
}

/// The event stored under `event_id`, or `NotFound`.
pub open spec fn event_details(ledger: LedgerView, event_id: u64) -> Result<
    EventView,
    ContractError,
> {
    if ledger.events.contains_key(event_id) {
        Ok(ledger.events[event_id])
    } else {
        Err(ContractError::NotFound {  })
    }
}

/// The bet of `user` on the event `event_id`, or `NotFound`.
pub open spec fn bet_details(ledger: LedgerView, user: Seq<char>, event_id: u64) -> Result<
    BetView,
    ContractError,
> {
    match bet_of(ledger.bets, event_id, user) {
        Some(bet) => Ok(bet),
        None => Err(ContractError::NotFound {  }),
    }
}

/// The bets of `user`, oldest first; `NotFound` for a user who never placed
/// one, not an empty sequence.
pub open spec fn user_bets(ledger: LedgerView, user: Seq<char>) -> Result<
    Seq<BetView>,
    ContractError,
> {
    if history_of(ledger.bets, user).len() == 0 {
        Err(ContractError::NotFound {  })
    } else {
        Ok(history_of(ledger.bets, user))
    }
}

/// The answer to the query `msg`.
pub open spec fn query_answer(ledger: LedgerView, msg: QueryMsg) -> Result<
    QueryAnswer,
    ContractError,
> {
    match msg {
        QueryMsg::GetEventDetails { event_id } => match event_details(ledger, event_id) {
            Ok(e) => Ok(QueryAnswer::Event(e)),
            Err(e) => Err(e),
        },
        QueryMsg::GetAllEventDetails {  } => Ok(QueryAnswer::Events(ledger.all_events)),
        QueryMsg::GetBetDetails { user, event_id } => match bet_details(ledger, user@, event_id) {
            Ok(b) => Ok(QueryAnswer::Bet(b)),
            Err(e) => Err(e),
        },
        QueryMsg::GetAllUserBetDetails { user } => match user_bets(ledger, user@) {
            Ok(v) => Ok(QueryAnswer::Bets(v)),
            Err(e) => Err(e),
        },
    }
}

/// The event stored under `event_id`.
pub fn query_event_details(ledger: &Ledger, event_id: u64) -> (r: Result<Event, ContractError>)
    ensures
        match r {
            Ok(event) => event_details(ledger@, event_id) == Ok::<EventView, ContractError>(event@),
            Err(e) => event_details(ledger@, event_id) == Err::<EventView, ContractError>(e),
        },
{
    match ledger.events.get(&event_id) {
        Some(event) => Ok(event.clone()),
        None => Err(ContractError::NotFound {  }),
    }
}

/// Every event as it was when it was added, in the order of adding; empty
/// where none was added.
pub fn query_all_events(ledger: &Ledger) -> (r: Vec<Event>)
    ensures
        events_view(r@) == ledger@.all_events,
{
    let mut out: Vec<Event> = Vec::new();
    let mut i: usize = 0;
    while i < ledger.all_events.len()
        invariant
            i <= ledger.all_events.len(),
            out.len() == i,
            forall|j: int| 0 <= j < i ==> out@[j]@ == ledger.all_events@[j]@,
        decreases ledger.all_events.len() - i,
    {
        out.push(ledger.all_events[i].clone());
        i += 1;
    }
    assert(events_view(out@) =~= ledger@.all_events);
    out
}

/// The bet that `user` holds on the event `event_id`.
pub fn query_bet_details(ledger: &Ledger, user: &String, event_id: u64) -> (r: Result<
    Bet,
    ContractError,
>)
    ensures
        match r {
            Ok(bet) => bet_details(ledger@, user@, event_id) == Ok::<BetView, ContractError>(bet@),
            Err(e) => bet_details(ledger@, user@, event_id) == Err::<BetView, ContractError>(e),
        },
{
    let ghost log = ledger@.bets;
    let mut i: usize = ledger.bets.len();
    assert(log.take(i as int) =~= log);
    while i > 0
        invariant
            i <= ledger.bets.len(),
            log == ledger@.bets,
            bet_of(log, event_id, user@) == bet_of(log.take(i as int), event_id, user@),
        decreases i,
    {
        i -= 1;
        assert(log.take(i + 1).drop_last() =~= log.take(i as int));
        assert(log.take(i + 1).last() == ledger.bets@[i as int]@);
        if ledger.bets[i].event_id == event_id && ledger.bets[i].user == *user {
            return Ok(ledger.bets[i].bet.clone());
        }
    }
    Err(ContractError::NotFound {  })
}

/// The bets of `user`, oldest first. A user who never placed a bet has no
/// history at all, and the query fails.
pub fn query_all_user_bets(ledger: &Ledger, user: &String) -> (r: Result<Vec<Bet>, ContractError>)
    ensures
        match r {
            Ok(bets) => user_bets(ledger@, user@) == Ok::<Seq<BetView>, ContractError>(
                bets_view(bets@),
            ),
            Err(e) => user_bets(ledger@, user@) == Err::<Seq<BetView>, ContractError>(e),
        },
{
    let ghost log = ledger@.bets;
    let mut out: Vec<Bet> = Vec::new();
    let mut i: usize = 0;
    assert(bets_view(out@) =~= history_of(log.take(0), user@));
    while i < ledger.bets.len()
        invariant
            i <= ledger.bets.len(),
            log == ledger@.bets,
            bets_view(out@) == history_of(log.take(i as int), user@),
        decreases ledger.bets.len() - i,
    {
        assert(log.take(i + 1).drop_last() =~= log.take(i as int));
        assert(log.take(i + 1).last() == ledger.bets@[i as int]@);
        if ledger.bets[i].user == *user {
            let ghost earlier = bets_view(out@);
            out.push(ledger.bets[i].bet.clone());
            assert(bets_view(out@) =~= earlier.push(ledger.bets@[i as int].bet@));
        }
        i += 1;
    }
    assert(log.take(i as int) =~= log);
    if out.len() == 0 {
        Err(ContractError::NotFound {  })
    } else {
        Ok(out)
    }
}

/// Answers one query. Nothing is changed by it.
pub fn query(ledger: &Ledger, msg: QueryMsg) -> (r: Result<QueryResponse, ContractError>)
    ensures
        match r {
            Ok(response) => query_answer(ledger@, msg) == Ok::<QueryAnswer, ContractError>(
                response@,
            ),
            Err(e) => query_answer(ledger@, msg) == Err::<QueryAnswer, ContractError>(e),
        },
{
    match msg {
        QueryMsg::GetEventDetails { event_id } => match query_event_details(ledger, event_id) {
            Ok(event) => Ok(QueryResponse::Event(event)),
            Err(e) => Err(e),
        },
        QueryMsg::GetAllEventDetails {  } => Ok(QueryResponse::Events(query_all_events(ledger))),
        QueryMsg::GetBetDetails { user, event_id } => match query_bet_details(
            ledger,
            &user,
            event_id,
        ) {
            Ok(bet) => Ok(QueryResponse::Bet(bet)),
            Err(e) => Err(e),
        },
        QueryMsg::GetAllUserBetDetails { user } => match query_all_user_bets(ledger, &user) {
            Ok(bets) => Ok(QueryResponse::Bets(bets)),
            Err(e) => Err(e),
        },
    }
}

} // verus!
