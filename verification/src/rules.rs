use crate::error::ContractError;
use crate::execute::{
    add_event_state, end_event_error, end_event_state, execute_error, execute_state,
    lemma_emptied_pools, new_event, place_bet_error, place_bet_state, placed_bet,
    start_event_error, start_event_state, update_fee_error, update_fee_state,
};
use crate::msg::{singles_view, Choice, ExecuteMsg, SingleView};
use crate::pool::lemma_stake_keeps_pools;
use crate::query::{bet_details, user_bets};
use crate::state::{bet_of, fee_in_range, history_of, BetView, LedgerView};
use vstd::prelude::*;

verus! {

/// After every accepted bet the pools still add up: in every stored event the
/// total is the sum of the options' totals, and every option's total is the
/// sum of its two sides.
pub proof fn lemma_place_bet_keeps_pools(
    pre: LedgerView,
    sender: Seq<char>,
    event_id: u64,
    choice: Choice,
    option: u64,
    amount: u128,
)
    requires
        pre.wf(),
        place_bet_error(pre, sender, event_id, choice, option, amount) is None,
    ensures
        place_bet_state(pre, sender, event_id, choice, option, amount).wf(),
{
    let post = place_bet_state(pre, sender, event_id, choice, option, amount);
    lemma_stake_keeps_pools(pre.events[event_id], option as int, choice, amount as nat);
    assert forall|id: u64| #[trigger] post.events.contains_key(id) implies post.events[id].wf()
        && post.events[id].event_id == id by {
        if id != event_id {
            assert(pre.events.contains_key(id));
        }
    }
}

/// No accepted command breaks the ledger: the fee stays in range, every
/// event stays under its own id, and the pools of every event still add up.
pub proof fn lemma_commands_keep_ledger_sound(
    pre: LedgerView,
    sender: Seq<char>,
    amount: u128,
    msg: ExecuteMsg,
)
    requires
        pre.wf(),
        execute_error(pre, sender, amount, msg) is None,
    ensures
        execute_state(pre, sender, amount, msg).wf(),
{
    let post = execute_state(pre, sender, amount, msg);
    match msg {
        ExecuteMsg::AddEvent { name, event_id, category, options, start_time, end_time } => {
            let event = new_event(
                event_id,
                name@,
                category@,
                singles_view(options@),
                start_time,
                end_time,
            );
            lemma_emptied_pools(singles_view(options@));
            assert(post == add_event_state(pre, event));
            assert(event.wf());
            assert forall|id: u64| #[trigger] post.events.contains_key(id) implies post.events[id].wf()
                && post.events[id].event_id == id by {
                if id != event_id {
                    assert(pre.events.contains_key(id));
                }
            }
            assert forall|i: int| 0 <= i < post.all_events.len() implies (#[trigger] post.all_events[i]).wf() by {
                if i < pre.all_events.len() {
                    assert(pre.all_events[i].wf());
                }
            }
        },
        ExecuteMsg::StartEvent { event_id } => {
            assert forall|id: u64| #[trigger] post.events.contains_key(id) implies post.events[id].wf()
                && post.events[id].event_id == id by {
                assert(pre.events.contains_key(id));
            }
        },
        ExecuteMsg::EndEvent { event_id, result } => {
            assert forall|id: u64| #[trigger] post.events.contains_key(id) implies post.events[id].wf()
                && post.events[id].event_id == id by {
                assert(pre.events.contains_key(id));
            }
        },
        ExecuteMsg::UpdateFee { new_fee } => {},
        ExecuteMsg::PlaceBet { event_id, choice, option } => {
            lemma_place_bet_keeps_pools(pre, sender, event_id, choice, option, amount);
        },
    }
}

/// A fee outside 1..=10000 basis points is always refused, and a fee that is
/// in range stays in range whatever `UpdateFee` is accepted.
pub proof fn lemma_fee_stays_in_range(pre: LedgerView, sender: Seq<char>, new_fee: u64)
    requires
        fee_in_range(pre.config.treasury_fee),
    ensures
        !fee_in_range(new_fee) ==> update_fee_error(pre, sender, new_fee) is Some,
        update_fee_error(pre, sender, new_fee) is None ==> fee_in_range(
            update_fee_state(pre, new_fee).config.treasury_fee,
        ),
{
}

/// Starting an event that was started fails every time, resolved or not.
pub proof fn lemma_started_event_cannot_start(pre: LedgerView, sender: Seq<char>, event_id: u64)
    requires
        pre.events.contains_key(event_id),
        pre.events[event_id].executed,
    ensures
        start_event_error(pre, sender, event_id) is Some,
        pre.is_admin(sender) ==> start_event_error(pre, sender, event_id) == Some(
            if pre.events[event_id].resolved {
                ContractError::EventEndedAndResolved { event_id }
            } else {
                ContractError::EventExecuted { event_id }
            },
        ),
{
}

/// An event cannot be started twice: after an accepted `StartEvent`, the
/// next one on that event fails, whoever sends it.
pub proof fn lemma_start_twice_fails(
    pre: LedgerView,
    sender: Seq<char>,
    again: Seq<char>,
    event_id: u64,
)
    requires
        start_event_error(pre, sender, event_id) is None,
    ensures
        start_event_error(start_event_state(pre, event_id), again, event_id) is Some,
{
}

/// Resolving an event that was never started fails; from the admin it fails
/// with `EventNotStarted`.
pub proof fn lemma_end_before_start_fails(pre: LedgerView, sender: Seq<char>, event_id: u64)
    requires
        pre.events.contains_key(event_id),
        !pre.events[event_id].executed,
    ensures
        end_event_error(pre, sender, event_id) is Some,
        pre.is_admin(sender) ==> end_event_error(pre, sender, event_id) == Some(
            ContractError::EventNotStarted {  },
        ),
{
}

/// An event is resolved once: after an accepted `EndEvent`, a second one
/// from the admin fails with `EventEnded`, whatever result it brings.
pub proof fn lemma_end_twice_fails(
    pre: LedgerView,
    sender: Seq<char>,
    event_id: u64,
    result: SingleView,
)
    requires
        end_event_error(pre, sender, event_id) is None,
    ensures
        end_event_error(end_event_state(pre, event_id, result), sender, event_id) == Some(
            ContractError::EventEnded { event_id },
        ),
{
}

/// One bet per user and event: after an accepted bet, a second one by the
/// same user on the same event fails with `CannotPredictTwice`, whatever its
/// side, option and amount.
pub proof fn lemma_second_bet_fails(
    pre: LedgerView,
    sender: Seq<char>,
    event_id: u64,
    choice: Choice,
    option: u64,
    amount: u128,
    next_choice: Choice,
    next_option: u64,
    next_amount: u128,
)
    requires
        place_bet_error(pre, sender, event_id, choice, option, amount) is None,
    ensures
        place_bet_error(
            place_bet_state(pre, sender, event_id, choice, option, amount),
            sender,
            event_id,
            next_choice,
            next_option,
            next_amount,
        ) == Some(ContractError::CannotPredictTwice {  }),
{
    let post = place_bet_state(pre, sender, event_id, choice, option, amount);
    let joined = post.events[event_id].participants;
    assert(joined[joined.len() - 1] == sender);
}

/// Whoever is among the participants of a started event cannot bet on it:
/// every bet of theirs fails with `CannotPredictTwice`.
pub proof fn lemma_participant_cannot_bet(
    pre: LedgerView,
    sender: Seq<char>,
    event_id: u64,
    choice: Choice,
    option: u64,
    amount: u128,
)
    requires
        pre.events.contains_key(event_id),
        pre.events[event_id].executed,
        pre.events[event_id].participants.contains(sender),
    ensures
        place_bet_error(pre, sender, event_id, choice, option, amount) == Some(
            ContractError::CannotPredictTwice {  },
        ),
{
}

/// Whether `msg` adds an event under the id `event_id`.
pub open spec fn adds_event(msg: ExecuteMsg, event_id: u64) -> bool {
    match msg {
        ExecuteMsg::AddEvent { event_id: added, .. } => added == event_id,
        _ => false,
    }
}

/// Nothing is ever taken away. After an accepted command every event is
/// still stored, the list of events and the bet ledger have only grown at
/// their ends, and the admin and the treasury are who they were. Unless the
/// command added an event under the same id, an event that was started is
/// still started, one that was resolved is still resolved with the same
/// result, and its participants are still in it.
pub proof fn lemma_commands_only_add(
    pre: LedgerView,
    sender: Seq<char>,
    amount: u128,
    msg: ExecuteMsg,
    event_id: u64,
    user: Seq<char>,
)
    requires
        execute_error(pre, sender, amount, msg) is None,
        pre.events.contains_key(event_id),
    ensures
        ({
            let post = execute_state(pre, sender, amount, msg);
            let before = pre.events[event_id];
            let after = post.events[event_id];
            &&& post.events.contains_key(event_id)
            &&& pre.all_events.is_prefix_of(post.all_events)
            &&& pre.bets.is_prefix_of(post.bets)
            &&& post.config.admin == pre.config.admin
            &&& post.config.treasury == pre.config.treasury
            &&& !adds_event(msg, event_id) ==> {
                &&& before.executed ==> after.executed
                &&& before.resolved ==> after.resolved && after.result == before.result
                &&& before.participants.contains(user) ==> after.participants.contains(user)
            }
        }),
{
    let post = execute_state(pre, sender, amount, msg);
    let before = pre.events[event_id];
    let after = post.events[event_id];
    if before.participants.contains(user) && !adds_event(msg, event_id) {
        let i = choose|i: int| 0 <= i < before.participants.len() && before.participants[i] == user;
        assert(after.participants[i] == user);
    }
}

/// A bet of zero is never accepted. On a started event that the sender has
/// not joined it fails with `NoBetFound`.
pub proof fn lemma_zero_amount_fails(
    pre: LedgerView,
    sender: Seq<char>,
    event_id: u64,
    choice: Choice,
    option: u64,
)
    ensures
        place_bet_error(pre, sender, event_id, choice, option, 0) is Some,
        pre.events.contains_key(event_id) && pre.events[event_id].executed
            && !pre.events[event_id].participants.contains(sender) ==> place_bet_error(
            pre,
            sender,
            event_id,
            choice,
            option,
            0,
        ) == Some(ContractError::NoBetFound {  }),
{
}

/// An accepted bet is what the bet query then answers for its user and
/// event, and it is the newest entry of that user's history; the bets and
/// histories of all others are as before.
pub proof fn lemma_placed_bet_is_found(
    pre: LedgerView,
    sender: Seq<char>,
    event_id: u64,
    choice: Choice,
    option: u64,
    amount: u128,
    other: Seq<char>,
    other_event: u64,
)
    ensures
        ({
            let post = place_bet_state(pre, sender, event_id, choice, option, amount);
            let bet = placed_bet(pre, event_id, choice, option, amount);
            &&& bet_details(post, sender, event_id) == Ok::<BetView, ContractError>(bet)
            &&& user_bets(post, sender) == Ok::<Seq<BetView>, ContractError>(
                history_of(pre.bets, sender).push(bet),
            )
            &&& other != sender ==> user_bets(post, other) == user_bets(pre, other)
            &&& (other != sender || other_event != event_id) ==> bet_details(
                post,
                other,
                other_event,
            ) == bet_details(pre, other, other_event)
        }),
{
    let post = place_bet_state(pre, sender, event_id, choice, option, amount);
    assert(post.bets.drop_last() =~= pre.bets);
    assert(bet_of(post.bets, other_event, other) == if other == sender && other_event
        == event_id {
        Some(post.bets.last().bet)
    } else {
        bet_of(pre.bets, other_event, other)
    });
}

} // verus!
