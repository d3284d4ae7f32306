use crate::error::ContractError;
use crate::msg::{singles_view, texts_view, Choice, Coin, ExecuteMsg, Single, SingleView};
use crate::pool::{add_stake, stake_fits};
use crate::state::{
    fee_in_range, pool_sum, Bet, BetRecord, BetRecordView, BetView, ConfigView, Event, EventView,
    Ledger, LedgerView,
};
use vstd::prelude::*;

verus! {

broadcast use vstd::std_specs::hash::group_hash_axioms;

/// Whether `r` fails with exactly the error `error`, or succeeds where there
/// is none.
pub open spec fn outcome_is<T>(r: Result<T, ContractError>, error: Option<ContractError>) -> bool {
    match r {
        Ok(_) => error is None,
        Err(e) => error == Some(e),
    }
}

/// The options with nothing staked on any of them.
pub open spec fn emptied_all(options: Seq<SingleView>) -> Seq<SingleView> {
    Seq::new(options.len(), |i: int| options[i].emptied())
}

/// The event that a successful `AddEvent` creates: not started, not
/// resolved, nobody in it and every pool at zero.
pub open spec fn new_event(
    event_id: u64,
    name: Seq<char>,
    category: Seq<char>,
    options: Seq<SingleView>,
    start_time: u64,
    end_time: u64,
) -> EventView {
    EventView {
        event_id,
        name,
        category,
        start_time,
        end_time,
        resolved: false,
        options: emptied_all(options),
        total_pool: 0,
        result: None,
        executed: false,
        participants: Seq::empty(),
    }
}

/// Why `AddEvent` from `sender` fails, if it does.
pub open spec fn add_event_error(pre: LedgerView, sender: Seq<char>) -> Option<ContractError> {
    if !pre.is_admin(sender) {
        Some(ContractError::Unauthorized {  })
    } else {
        None
    }
}

/// The ledger after `event` was added: stored under its id, in place of an
/// earlier event of that id, and appended to the list.
pub open spec fn add_event_state(pre: LedgerView, event: EventView) -> LedgerView {
    LedgerView {
        events: pre.events.insert(event.event_id, event),
        all_events: pre.all_events.push(event),
        ..pre
    }
}

/// Why `StartEvent` fails, if it does. An event that was started and resolved
/// is reported as such, before one that was only started.
pub open spec fn start_event_error(pre: LedgerView, sender: Seq<char>, event_id: u64) -> Option<
    ContractError,
> {
    if !pre.is_admin(sender) {
        Some(ContractError::Unauthorized {  })
    } else if !pre.events.contains_key(event_id) {
        Some(ContractError::NotFound {  })
    } else if pre.events[event_id].executed && pre.events[event_id].resolved {
        Some(ContractError::EventEndedAndResolved { event_id })
    } else if pre.events[event_id].executed {
        Some(ContractError::EventExecuted { event_id })
    } else {
        None
    }
}

/// The ledger after the event `event_id` was started.
pub open spec fn start_event_state(pre: LedgerView, event_id: u64) -> LedgerView {
    LedgerView { events: pre.events.insert(event_id, pre.events[event_id].started()), ..pre }
}

/// Why `EndEvent` fails, if it does.
pub open spec fn end_event_error(pre: LedgerView, sender: Seq<char>, event_id: u64) -> Option<
    ContractError,
> {
    if !pre.is_admin(sender) {
        Some(ContractError::Unauthorized {  })
    } else if !pre.events.contains_key(event_id) {
        Some(ContractError::NotFound {  })
    } else if !pre.events[event_id].executed {
        Some(ContractError::EventNotStarted {  })
    } else if pre.events[event_id].resolved {
        Some(ContractError::EventEnded { event_id })
    } else {
        None
    }
}

/// The ledger after the event `event_id` was resolved with `result`.
pub open spec fn end_event_state(pre: LedgerView, event_id: u64, result: SingleView) -> LedgerView {
    LedgerView { events: pre.events.insert(event_id, pre.events[event_id].ended(result)), ..pre }
}

/// Why `UpdateFee` fails, if it does.
pub open spec fn update_fee_error(pre: LedgerView, sender: Seq<char>, new_fee: u64) -> Option<
    ContractError,
> {
    if !pre.is_admin(sender) {
        Some(ContractError::Unauthorized {  })
    } else if !fee_in_range(new_fee) {
        Some(ContractError::IncorrectFee {  })
    } else {
        None
    }
}

/// The ledger with `new_fee` as the treasury's fee.
pub open spec fn update_fee_state(pre: LedgerView, new_fee: u64) -> LedgerView {
    LedgerView { config: ConfigView { treasury_fee: new_fee, ..pre.config }, ..pre }
}

/// Why `PlaceBet` fails, if it does, in the order in which the conditions
/// are tested.
pub open spec fn place_bet_error(
    pre: LedgerView,
    sender: Seq<char>,
    event_id: u64,
    choice: Choice,
    option: u64,
    amount: u128,
) -> Option<ContractError> {
    if !pre.events.contains_key(event_id) {
        Some(ContractError::NotFound {  })
    } else if !pre.events[event_id].executed {
        Some(ContractError::EventNotStarted {  })
    } else if pre.events[event_id].participants.contains(sender) {
        Some(ContractError::CannotPredictTwice {  })
    } else if amount == 0 {
        Some(ContractError::NoBetFound {  })
    } else if option >= pre.events[event_id].options.len() {
        Some(ContractError::InvalidOption { option })
    } else if !stake_fits(pre.events[event_id], option as int, choice, amount as nat) {
        Some(ContractError::PoolOverflow {  })
    } else {
        None
    }
}

/// The bet that a successful `PlaceBet` records: the option as it stands
/// before the stake is added to it.
pub open spec fn placed_bet(
    pre: LedgerView,
    event_id: u64,
    choice: Choice,
    option: u64,
    amount: u128,
) -> BetView {
    BetView { option: pre.events[event_id].options[option as int], choice, amount: amount as nat }
}

/// The ledger after a successful `PlaceBet`: the stake is in the event's
/// pools, the sender among its participants, and the bet at the end of the
/// bet ledger.
pub open spec fn place_bet_state(
    pre: LedgerView,
    sender: Seq<char>,
    event_id: u64,
    choice: Choice,
    option: u64,
    amount: u128,
) -> LedgerView {
    LedgerView {
        events: pre.events.insert(
            event_id,
            pre.events[event_id].with_stake(option as int, choice, amount as nat).joined_by(sender),
        ),
        bets: pre.bets.push(
            BetRecordView {
                event_id,
                user: sender,
                bet: placed_bet(pre, event_id, choice, option, amount),
            },
        ),
        ..pre
    }
}

/// The denomination in which stakes are counted.
pub open spec fn stake_denom() -> Seq<char> {
    "uzig"@
}

/// The amount of the first of `funds` in the denomination `denom`; zero
/// where there is none.
pub open spec fn attached_amount(funds: Seq<Coin>, denom: Seq<char>) -> u128
    decreases funds.len(),
{
    if funds.len() == 0 {
        0
    } else if funds.first().denom@ == denom {
        funds.first().amount
    } else {
        attached_amount(funds.drop_first(), denom)
    }
}

/// Why the command `msg` fails, if it does, when `amount` is what came with
/// it in the stake denomination.
pub open spec fn execute_error(
    pre: LedgerView,
    sender: Seq<char>,
    amount: u128,
    msg: ExecuteMsg,
) -> Option<ContractError> {
    match msg {
        ExecuteMsg::AddEvent { .. } => add_event_error(pre, sender),
        ExecuteMsg::StartEvent { event_id } => start_event_error(pre, sender, event_id),
        ExecuteMsg::EndEvent { event_id, .. } => end_event_error(pre, sender, event_id),
        ExecuteMsg::UpdateFee { new_fee } => update_fee_error(pre, sender, new_fee),
        ExecuteMsg::PlaceBet { event_id, choice, option } => place_bet_error(
            pre,
            sender,
            event_id,
            choice,
            option,
            amount,
        ),
    }
}

/// The ledger after the command `msg` succeeded.
pub open spec fn execute_state(
    pre: LedgerView,
    sender: Seq<char>,
    amount: u128,
    msg: ExecuteMsg,
) -> LedgerView {
    match msg {
        ExecuteMsg::AddEvent { name, event_id, category, options, start_time, end_time } => {
            add_event_state(
                pre,
                new_event(
                    event_id,
                    name@,
                    category@,
                    singles_view(options@),
                    start_time,
                    end_time,
                ),
            )
        },
        ExecuteMsg::StartEvent { event_id } => start_event_state(pre, event_id),
        ExecuteMsg::EndEvent { event_id, result } => end_event_state(pre, event_id, result@),
        ExecuteMsg::UpdateFee { new_fee } => update_fee_state(pre, new_fee),
        ExecuteMsg::PlaceBet { event_id, choice, option } => place_bet_state(
            pre,
            sender,
            event_id,
            choice,
            option,
            amount,
        ),
    }
}

/// Options with every pool at zero add up to zero, and each is balanced.
pub proof fn lemma_emptied_pools(options: Seq<SingleView>)
    ensures
        pool_sum(emptied_all(options)) == 0,
        forall|i: int|
            0 <= i < options.len() ==> (#[trigger] emptied_all(options)[i]).balanced(),
    decreases options.len(),
{
    if options.len() > 0 {
        lemma_emptied_pools(options.drop_last());
        assert(emptied_all(options).drop_last() =~= emptied_all(options.drop_last()));
    }
}

/// Whether `user` is one of `participants`.
pub fn is_participant(participants: &Vec<String>, user: &String) -> (r: bool)
    ensures
        r == texts_view(participants@).contains(user@),
{
    let mut i: usize = 0;
    while i < participants.len()
        invariant
            i <= participants.len(),
            forall|j: int| 0 <= j < i ==> participants@[j]@ != user@,
        decreases participants.len() - i,
    {
        if participants[i] == *user {
            assert(texts_view(participants@)[i as int] == user@);
            return true;
        }
        i += 1;
    }
    false
}

/// Copies of `options` with nothing staked on any of them.
pub fn emptied_options(options: &Vec<Single>) -> (res: Vec<Single>)
    ensures
        singles_view(res@) == emptied_all(singles_view(options@)),
{
    let mut out: Vec<Single> = Vec::new();
    let mut i: usize = 0;
    while i < options.len()
        invariant
            i <= options.len(),
            out.len() == i,
            forall|j: int| 0 <= j < i ==> out@[j]@ == options@[j]@.emptied(),
        decreases options.len() - i,
    {
        out.push(
            Single { name: options[i].name.clone(), total_pool: 0, yes_pool: 0, no_pool: 0 },
        );
        i += 1;
    }
    assert(singles_view(out@) =~= emptied_all(singles_view(options@)));
    out
}

/// What came with a command in the stake denomination: the amount of the
/// first such coin, or zero.
pub fn attached_stake(funds: &Vec<Coin>) -> (amount: u128)
    ensures
        amount == attached_amount(funds@, stake_denom()),
{
    let denom = "uzig".to_owned();
    let mut i: usize = 0;
    assert(funds@.skip(0) =~= funds@);
    while i < funds.len()
        invariant
            i <= funds.len(),
            denom@ == stake_denom(),
            attached_amount(funds@, stake_denom()) == attached_amount(
                funds@.skip(i as int),
                stake_denom(),
            ),
        decreases funds.len() - i,
    {
        if funds[i].denom == denom {
            return funds[i].amount;
        }
        assert(funds@.skip(i as int).drop_first() =~= funds@.skip(i + 1));
        i += 1;
    }
    0
}

/// The guard at the top of every admin command: only the admin passes.
pub fn ensure_admin(ledger: &Ledger, sender: &String) -> (r: Result<(), ContractError>)
    ensures
        r == if ledger@.is_admin(sender@) {
            Ok::<(), ContractError>(())
        } else {
            Err::<(), ContractError>(ContractError::Unauthorized {  })
        },
{
    if *sender == ledger.config.admin {
        Ok(())
    } else {
        Err(ContractError::Unauthorized {  })
    }
}

/// Adds an event, as the admin: stores it under `event_id`, replacing an
/// earlier event of that id, appends it to the list of events and returns
/// it. The pools start at zero whatever `options` holds.
pub fn execute_add_event(
    ledger: &mut Ledger,
    sender: &String,
    name: String,
    event_id: u64,
    category: String,
    options: Vec<Single>,
    start_time: u64,
    end_time: u64,
) -> (r: Result<Event, ContractError>)
    ensures
        outcome_is(r, add_event_error(old(ledger)@, sender@)),
        match r {
            Ok(event) => {
                &&& event@ == new_event(
                    event_id,
                    name@,
                    category@,
                    singles_view(options@),
                    start_time,
                    end_time,
                )
                &&& final(ledger)@ == add_event_state(old(ledger)@, event@)
            },
            Err(_) => *final(ledger) == *old(ledger),
        },
        old(ledger)@.wf() ==> final(ledger)@.wf(),
{
    if let Err(e) = ensure_admin(ledger, sender) {
        return Err(e);
    }
    let event = Event {
        event_id,
        name,
        category,
        start_time,
        end_time,
        resolved: false,
        options: emptied_options(&options),
        total_pool: 0,
        result: None,
        executed: false,
        participants: Vec::new(),
    };
    let stored = event.clone();
    let listed = event.clone();
    ledger.events.insert(event_id, stored);
    ledger.all_events.push(listed);
    proof {
        assert(event@.participants =~= Seq::<Seq<char>>::empty());
        assert(ledger@.events =~= old(ledger)@.events.insert(event_id, event@));
        assert(ledger@.all_events =~= old(ledger)@.all_events.push(event@));
        lemma_emptied_pools(singles_view(options@));
    }
    Ok(event)
}

/// Opens the event `event_id` for bets, as the admin.
pub fn execute_start_event(ledger: &mut Ledger, sender: &String, event_id: u64) -> (r: Result<
    (),
    ContractError,
>)
    ensures
        outcome_is(r, start_event_error(old(ledger)@, sender@, event_id)),
        final(ledger)@ == if r.is_ok() {
            start_event_state(old(ledger)@, event_id)
        } else {
            old(ledger)@
        },
        old(ledger)@.wf() ==> final(ledger)@.wf(),
{
    if let Err(e) = ensure_admin(ledger, sender) {
        return Err(e);
    }
    match ledger.events.get(&event_id) {
        None => {
            return Err(ContractError::NotFound {  });
        },
        Some(event) => {
            if event.executed && event.resolved {
                return Err(ContractError::EventEndedAndResolved { event_id });
            }
            if event.executed {
                return Err(ContractError::EventExecuted { event_id });
            }
        },
    }
    match ledger.events.remove(&event_id) {
        // The event was found above, so this arm is never taken.
        None => Err(ContractError::NotFound {  }),
        Some(mut event) => {
            event.executed = true;
            ledger.events.insert(event_id, event);
            assert(ledger@.events =~= start_event_state(old(ledger)@, event_id).events);
            Ok(())
        },
    }
}

/// Resolves the event `event_id` with `result` as its outcome, as the admin.
pub fn execute_end_event(
    ledger: &mut Ledger,
    sender: &String,
    event_id: u64,
    result: Single,
) -> (r: Result<(), ContractError>)
    ensures
        outcome_is(r, end_event_error(old(ledger)@, sender@, event_id)),
        final(ledger)@ == if r.is_ok() {
            end_event_state(old(ledger)@, event_id, result@)
        } else {
            old(ledger)@
        },
        old(ledger)@.wf() ==> final(ledger)@.wf(),
{
    if let Err(e) = ensure_admin(ledger, sender) {
        return Err(e);
    }
    match ledger.events.get(&event_id) {
        None => {
            return Err(ContractError::NotFound {  });
        },
        Some(event) => {
            if !event.executed {
                return Err(ContractError::EventNotStarted {  });
            }
            if event.resolved {
                return Err(ContractError::EventEnded { event_id });
            }
        },
    }
    match ledger.events.remove(&event_id) {
        // The event was found above, so this arm is never taken.
        None => Err(ContractError::NotFound {  }),
        Some(mut event) => {
            event.resolved = true;
            event.result = Some(result);
            ledger.events.insert(event_id, event);
            assert(ledger@.events =~= end_event_state(old(ledger)@, event_id, result@).events);
            Ok(())
        },
    }
}

/// Sets the treasury's fee, as the admin.
pub fn execute_update_fee(ledger: &mut Ledger, sender: &String, new_fee: u64) -> (r: Result<
    (),
    ContractError,
>)
    ensures
        outcome_is(r, update_fee_error(old(ledger)@, sender@, new_fee)),
        final(ledger)@ == if r.is_ok() {
            update_fee_state(old(ledger)@, new_fee)
        } else {
            old(ledger)@
        },
        r.is_err() ==> *final(ledger) == *old(ledger),
        old(ledger)@.wf() ==> final(ledger)@.wf(),
{
    if let Err(e) = ensure_admin(ledger, sender) {
        return Err(e);
    }
    if new_fee == 0 || new_fee > 10_000 {
        return Err(ContractError::IncorrectFee {  });
    }
    ledger.config.treasury_fee = new_fee;
    Ok(())
}

/// Places the sender's one bet on the event `event_id`: `amount` on the side
/// `choice` of the option at `option`. Returns the recorded bet.
pub fn execute_place_bet(
    ledger: &mut Ledger,
    sender: &String,
    event_id: u64,
    choice: Choice,
    option: u64,
    amount: u128,
) -> (r: Result<Bet, ContractError>)
    ensures
        outcome_is(r, place_bet_error(old(ledger)@, sender@, event_id, choice, option, amount)),
        match r {
            Ok(bet) => {
                &&& bet@ == placed_bet(old(ledger)@, event_id, choice, option, amount)
                &&& final(ledger)@ == place_bet_state(
                    old(ledger)@,
                    sender@,
                    event_id,
                    choice,
                    option,
                    amount,
                )
            },
            Err(_) => final(ledger)@ == old(ledger)@,
        },
        old(ledger)@.wf() ==> final(ledger)@.wf(),
{
    match ledger.events.get(&event_id) {
        None => {
            return Err(ContractError::NotFound {  });
        },
        Some(event) => {
            if !event.executed {
                return Err(ContractError::EventNotStarted {  });
            }
            if is_participant(&event.participants, sender) {
                return Err(ContractError::CannotPredictTwice {  });
            }
            if amount == 0 {
                return Err(ContractError::NoBetFound {  });
            }
            if option >= event.options.len() as u64 {
                return Err(ContractError::InvalidOption { option });
            }
        },
    }
    match ledger.events.remove(&event_id) {
        // The event was found above, so this arm is never taken.
        None => Err(ContractError::NotFound {  }),
        Some(mut event) => {
            let ghost before = event@;
            let snapshot = event.options[option as usize].clone();
            match add_stake(&mut event, option, choice, amount) {
                Err(e) => {
                    ledger.events.insert(event_id, event);
                    assert(ledger@.events =~= old(ledger)@.events);
                    Err(e)
                },
                Ok(_) => {
                    event.participants.push(sender.clone());
                    assert(event@.participants =~= before.participants.push(sender@));
                    ledger.events.insert(event_id, event);
                    let bet = Bet { option: snapshot, choice, amount };
                    ledger.bets.push(BetRecord { event_id, user: sender.clone(), bet: bet.clone() });
                    proof {
                        let post = place_bet_state(
                            old(ledger)@,
                            sender@,
                            event_id,
                            choice,
                            option,
                            amount,
                        );
                        assert(ledger@.events =~= post.events);
                        assert(ledger@.bets =~= post.bets);
                    }
                    Ok(bet)
                },
            }
        },
    }
}

/// Runs one command from `sender`, with `funds` attached to it. A failed
/// command leaves the ledger as it was.
pub fn execute(ledger: &mut Ledger, sender: &String, funds: &Vec<Coin>, msg: ExecuteMsg) -> (r:
    Result<(), ContractError>)
    ensures
        outcome_is(
            r,
            execute_error(old(ledger)@, sender@, attached_amount(funds@, stake_denom()), msg),
        ),
        final(ledger)@ == if r.is_ok() {
            execute_state(old(ledger)@, sender@, attached_amount(funds@, stake_denom()), msg)
        } else {
            old(ledger)@
        },
        old(ledger)@.wf() ==> final(ledger)@.wf(),
{
    match msg {
        ExecuteMsg::AddEvent { name, event_id, category, options, start_time, end_time } => {
            match execute_add_event(
                ledger,
                sender,
                name,
                event_id,
                category,
                options,
                start_time,
                end_time,
            ) {
                Ok(_) => Ok(()),
                Err(e) => Err(e),
            }
        },
        ExecuteMsg::StartEvent { event_id } => execute_start_event(ledger, sender, event_id),
        ExecuteMsg::EndEvent { event_id, result } => execute_end_event(
            ledger,
            sender,
            event_id,
            result,
        ),
        ExecuteMsg::UpdateFee { new_fee } => execute_update_fee(ledger, sender, new_fee),
        ExecuteMsg::PlaceBet { event_id, choice, option } => {
            let amount = attached_stake(funds);
            match execute_place_bet(ledger, sender, event_id, choice, option, amount) {
                Ok(_) => Ok(()),
                Err(e) => Err(e),
            }
        },
    }
}

} // verus!
