use zigstake_event::error::ContractError;
use zigstake_event::execute::{
    attached_stake, emptied_options, ensure_admin, execute, execute_add_event, execute_end_event,
    execute_place_bet, execute_start_event, execute_update_fee, is_participant,
};
use zigstake_event::instantiate::instantiate;
use zigstake_event::msg::{Choice, Coin, ExecuteMsg, InstantiateMsg, QueryMsg, Single};
use zigstake_event::pool::add_stake;
use zigstake_event::query::{
    query, query_all_events, query_all_user_bets, query_bet_details, query_event_details,
    QueryResponse,
};
use zigstake_event::state::{clone_singles, clone_texts, Bet, Event, Ledger};

fn text(s: &str) -> String {
    s.to_string()
}

fn option_named(name: &str) -> Single {
    Single { name: text(name), total_pool: 0, yes_pool: 0, no_pool: 0 }
}

fn fresh_ledger() -> Ledger {
    instantiate(text("A"), InstantiateMsg { treasury_fee: 250, treasury: text("T") }, text("T"))
        .unwrap()
}

fn ledger_with_started_event() -> Ledger {
    let mut ledger = fresh_ledger();
    execute_add_event(
        &mut ledger,
        &text("A"),
        text("match"),
        1,
        text("sport"),
        vec![option_named("X"), option_named("Y")],
        10,
        20,
    )
    .unwrap();
    execute_start_event(&mut ledger, &text("A"), 1).unwrap();
    ledger
}

fn pools_add_up(event: &Event) -> bool {
    let mut sum: u128 = 0;
    for o in event.options.iter() {
        if o.total_pool != o.yes_pool + o.no_pool {
            return false;
        }
        sum += o.total_pool;
    }
    sum == event.total_pool
}

#[test]
fn instantiate_stores_admin_fee_and_treasury() {
    let ledger = fresh_ledger();
    assert_eq!(ledger.config.admin, "A");
    assert_eq!(ledger.config.treasury_fee, 250);
    assert_eq!(ledger.config.treasury, "T");
    assert!(ledger.events.is_empty());
    assert!(ledger.all_events.is_empty());
    assert!(ledger.bets.is_empty());
}

#[test]
fn instantiate_takes_the_treasury_from_the_address() {
    let ledger = instantiate(
        text("A"),
        InstantiateMsg { treasury_fee: 1, treasury: text("ignored") },
        text("vault"),
    )
    .unwrap();
    assert_eq!(ledger.config.treasury, "vault");
}

#[test]
fn instantiate_rejects_fee_out_of_range() {
    for fee in [0u64, 10_001, u64::MAX] {
        let r = instantiate(
            text("A"),
            InstantiateMsg { treasury_fee: fee, treasury: text("T") },
            text("T"),
        );
        assert_eq!(r, Err(ContractError::IncorrectFee {}));
    }
}

#[test]
fn instantiate_accepts_the_bounds_of_the_fee_range() {
    for fee in [1u64, 10_000] {
        let ledger = instantiate(
            text("A"),
            InstantiateMsg { treasury_fee: fee, treasury: text("T") },
            text("T"),
        )
        .unwrap();
        assert_eq!(ledger.config.treasury_fee, fee);
    }
}

#[test]
fn update_fee_by_admin_in_range() {
    let mut ledger = fresh_ledger();
    assert_eq!(execute_update_fee(&mut ledger, &text("A"), 10_000), Ok(()));
    assert_eq!(ledger.config.treasury_fee, 10_000);
    assert_eq!(execute_update_fee(&mut ledger, &text("A"), 1), Ok(()));
    assert_eq!(ledger.config.treasury_fee, 1);
}

#[test]
fn update_fee_out_of_range_keeps_the_fee() {
    let mut ledger = fresh_ledger();
    assert_eq!(
        execute_update_fee(&mut ledger, &text("A"), 0),
        Err(ContractError::IncorrectFee {})
    );
    assert_eq!(
        execute_update_fee(&mut ledger, &text("A"), 10_001),
        Err(ContractError::IncorrectFee {})
    );
    assert_eq!(ledger, fresh_ledger());
}

#[test]
fn update_fee_by_non_admin_is_unauthorized() {
    let mut ledger = fresh_ledger();
    assert_eq!(
        execute_update_fee(&mut ledger, &text("B"), 300),
        Err(ContractError::Unauthorized {})
    );
    assert_eq!(
        execute_update_fee(&mut ledger, &text("B"), 0),
        Err(ContractError::Unauthorized {})
    );
    assert_eq!(ledger.config.treasury_fee, 250);
}

#[test]
fn full_lifecycle_of_one_event() {
    let mut ledger = fresh_ledger();
    let added = execute_add_event(
        &mut ledger,
        &text("A"),
        text("match"),
        1,
        text("sport"),
        vec![option_named("X")],
        10,
        20,
    )
    .unwrap();
    assert_eq!(added.event_id, 1);
    assert!(!added.executed);
    assert!(!added.resolved);
    assert_eq!(execute_start_event(&mut ledger, &text("A"), 1), Ok(()));
    let bet = execute_place_bet(&mut ledger, &text("U"), 1, Choice::Yes, 0, 100).unwrap();
    assert_eq!(bet, Bet { option: option_named("X"), choice: Choice::Yes, amount: 100 });
    let event = query_event_details(&ledger, 1).unwrap();
    assert_eq!(event.total_pool, 100);
    assert_eq!(
        event.options[0],
        Single { name: text("X"), total_pool: 100, yes_pool: 100, no_pool: 0 }
    );
    assert_eq!(event.participants, vec![text("U")]);
    let result = event.options[0].clone();
    assert_eq!(execute_end_event(&mut ledger, &text("A"), 1, result.clone()), Ok(()));
    let event = query_event_details(&ledger, 1).unwrap();
    assert!(event.resolved);
    assert!(event.executed);
    assert_eq!(event.result, Some(result));
    assert_eq!(event.total_pool, 100);
}

#[test]
fn admin_commands_by_non_admin_change_nothing() {
    let mut ledger = fresh_ledger();
    let r = execute_add_event(
        &mut ledger,
        &text("B"),
        text("match"),
        1,
        text("sport"),
        vec![option_named("X")],
        10,
        20,
    );
    assert_eq!(r, Err(ContractError::Unauthorized {}));
    assert_eq!(ledger, fresh_ledger());
    execute_add_event(
        &mut ledger,
        &text("A"),
        text("match"),
        1,
        text("sport"),
        vec![option_named("X")],
        10,
        20,
    )
    .unwrap();
    assert_eq!(
        execute_start_event(&mut ledger, &text("B"), 1),
        Err(ContractError::Unauthorized {})
    );
    assert!(!query_event_details(&ledger, 1).unwrap().executed);
    assert_eq!(
        execute_end_event(&mut ledger, &text("B"), 1, option_named("X")),
        Err(ContractError::Unauthorized {})
    );
    assert!(!query_event_details(&ledger, 1).unwrap().resolved);
}

#[test]
fn place_bet_on_unknown_event_is_not_found() {
    let mut ledger = ledger_with_started_event();
    let before = query_event_details(&ledger, 1).unwrap();
    assert_eq!(
        execute_place_bet(&mut ledger, &text("U"), 7, Choice::Yes, 0, 100),
        Err(ContractError::NotFound {})
    );
    assert_eq!(query_event_details(&ledger, 1).unwrap(), before);
    assert!(ledger.bets.is_empty());
}

#[test]
fn user_without_bets_has_no_history() {
    let mut ledger = ledger_with_started_event();
    assert_eq!(query_all_user_bets(&ledger, &text("U")), Err(ContractError::NotFound {}));
    execute_place_bet(&mut ledger, &text("U"), 1, Choice::No, 1, 5).unwrap();
    assert_eq!(query_all_user_bets(&ledger, &text("V")), Err(ContractError::NotFound {}));
    assert_eq!(
        query_all_user_bets(&ledger, &text("U")),
        Ok(vec![Bet { option: option_named("Y"), choice: Choice::No, amount: 5 }])
    );
}

#[test]
fn all_events_is_empty_before_any_event() {
    let ledger = fresh_ledger();
    assert_eq!(query_all_events(&ledger), Vec::<Event>::new());
}

#[test]
fn add_event_starts_every_pool_at_zero() {
    let mut ledger = fresh_ledger();
    let loaded = Single { name: text("X"), total_pool: 9, yes_pool: 4, no_pool: 5 };
    let event = execute_add_event(
        &mut ledger,
        &text("A"),
        text("match"),
        3,
        text("sport"),
        vec![loaded, option_named("Y")],
        10,
        20,
    )
    .unwrap();
    assert_eq!(
        event,
        Event {
            event_id: 3,
            name: text("match"),
            category: text("sport"),
            start_time: 10,
            end_time: 20,
            resolved: false,
            options: vec![option_named("X"), option_named("Y")],
            total_pool: 0,
            result: None,
            executed: false,
            participants: vec![],
        }
    );
    assert_eq!(query_event_details(&ledger, 3), Ok(event.clone()));
    assert_eq!(query_all_events(&ledger), vec![event]);
}

#[test]
fn add_event_with_a_used_id_replaces_the_stored_event() {
    let mut ledger = ledger_with_started_event();
    execute_add_event(
        &mut ledger,
        &text("A"),
        text("rematch"),
        1,
        text("sport"),
        vec![option_named("Z")],
        30,
        40,
    )
    .unwrap();
    let stored = query_event_details(&ledger, 1).unwrap();
    assert_eq!(stored.name, "rematch");
    assert!(!stored.executed);
    let listed = query_all_events(&ledger);
    assert_eq!(listed.len(), 2);
    assert_eq!(listed[0].name, "match");
    assert_eq!(listed[1].name, "rematch");
}

#[test]
fn start_event_twice_fails() {
    let mut ledger = ledger_with_started_event();
    assert_eq!(
        execute_start_event(&mut ledger, &text("A"), 1),
        Err(ContractError::EventExecuted { event_id: 1 })
    );
    execute_end_event(&mut ledger, &text("A"), 1, option_named("X")).unwrap();
    assert_eq!(
        execute_start_event(&mut ledger, &text("A"), 1),
        Err(ContractError::EventEndedAndResolved { event_id: 1 })
    );
}

#[test]
fn start_unknown_event_is_not_found() {
    let mut ledger = fresh_ledger();
    assert_eq!(execute_start_event(&mut ledger, &text("A"), 1), Err(ContractError::NotFound {}));
}

#[test]
fn end_event_before_start_fails() {
    let mut ledger = fresh_ledger();
    execute_add_event(
        &mut ledger,
        &text("A"),
        text("match"),
        1,
        text("sport"),
        vec![option_named("X")],
        10,
        20,
    )
    .unwrap();
    assert_eq!(
        execute_end_event(&mut ledger, &text("A"), 1, option_named("X")),
        Err(ContractError::EventNotStarted {})
    );
    assert!(!query_event_details(&ledger, 1).unwrap().resolved);
}

#[test]
fn end_event_twice_fails() {
    let mut ledger = ledger_with_started_event();
    assert_eq!(execute_end_event(&mut ledger, &text("A"), 1, option_named("X")), Ok(()));
    assert_eq!(
        execute_end_event(&mut ledger, &text("A"), 1, option_named("Y")),
        Err(ContractError::EventEnded { event_id: 1 })
    );
    assert_eq!(query_event_details(&ledger, 1).unwrap().result, Some(option_named("X")));
}

#[test]
fn end_unknown_event_is_not_found() {
    let mut ledger = fresh_ledger();
    assert_eq!(
        execute_end_event(&mut ledger, &text("A"), 9, option_named("X")),
        Err(ContractError::NotFound {})
    );
}

#[test]
fn place_bet_before_start_fails() {
    let mut ledger = fresh_ledger();
    execute_add_event(
        &mut ledger,
        &text("A"),
        text("match"),
        1,
        text("sport"),
        vec![option_named("X")],
        10,
        20,
    )
    .unwrap();
    assert_eq!(
        execute_place_bet(&mut ledger, &text("U"), 1, Choice::Yes, 0, 100),
        Err(ContractError::EventNotStarted {})
    );
}

#[test]
fn second_bet_by_the_same_user_fails() {
    let mut ledger = ledger_with_started_event();
    execute_place_bet(&mut ledger, &text("U"), 1, Choice::Yes, 0, 100).unwrap();
    let before = query_event_details(&ledger, 1).unwrap();
    assert_eq!(
        execute_place_bet(&mut ledger, &text("U"), 1, Choice::No, 1, 7),
        Err(ContractError::CannotPredictTwice {})
    );
    assert_eq!(
        execute_place_bet(&mut ledger, &text("U"), 1, Choice::Yes, 0, 0),
        Err(ContractError::CannotPredictTwice {})
    );
    assert_eq!(query_event_details(&ledger, 1).unwrap(), before);
    assert_eq!(ledger.bets.len(), 1);
}

#[test]
fn zero_amount_is_no_bet() {
    let mut ledger = ledger_with_started_event();
    let before = query_event_details(&ledger, 1).unwrap();
    assert_eq!(
        execute_place_bet(&mut ledger, &text("U"), 1, Choice::Yes, 0, 0),
        Err(ContractError::NoBetFound {})
    );
    assert_eq!(query_event_details(&ledger, 1).unwrap(), before);
    assert!(before.participants.is_empty());
    assert!(ledger.bets.is_empty());
}

#[test]
fn option_out_of_range_is_rejected() {
    let mut ledger = ledger_with_started_event();
    let before = query_event_details(&ledger, 1).unwrap();
    assert_eq!(
        execute_place_bet(&mut ledger, &text("U"), 1, Choice::Yes, 2, 10),
        Err(ContractError::InvalidOption { option: 2 })
    );
    assert_eq!(
        execute_place_bet(&mut ledger, &text("U"), 1, Choice::Yes, u64::MAX, 10),
        Err(ContractError::InvalidOption { option: u64::MAX })
    );
    assert_eq!(query_event_details(&ledger, 1).unwrap(), before);
}

#[test]
fn overflowing_pool_fails_the_bet() {
    let mut ledger = ledger_with_started_event();
    execute_place_bet(&mut ledger, &text("U"), 1, Choice::Yes, 0, u128::MAX - 1).unwrap();
    let before = query_event_details(&ledger, 1).unwrap();
    assert_eq!(
        execute_place_bet(&mut ledger, &text("V"), 1, Choice::No, 1, 2),
        Err(ContractError::PoolOverflow {})
    );
    assert_eq!(query_event_details(&ledger, 1).unwrap(), before);
    assert_eq!(ledger.bets.len(), 1);
    execute_place_bet(&mut ledger, &text("V"), 1, Choice::No, 1, 1).unwrap();
    assert_eq!(query_event_details(&ledger, 1).unwrap().total_pool, u128::MAX);
}

#[test]
fn add_stake_adds_to_the_three_totals() {
    let mut event = Event {
        event_id: 1,
        name: text("match"),
        category: text("sport"),
        start_time: 0,
        end_time: 0,
        resolved: false,
        options: vec![
            Single { name: text("X"), total_pool: 30, yes_pool: 10, no_pool: 20 },
            option_named("Y"),
        ],
        total_pool: 30,
        result: None,
        executed: true,
        participants: vec![],
    };
    assert_eq!(add_stake(&mut event, 0, Choice::No, 23), Ok(()));
    assert_eq!(event.total_pool, 53);
    assert_eq!(
        event.options[0],
        Single { name: text("X"), total_pool: 53, yes_pool: 10, no_pool: 43 }
    );
    assert_eq!(event.options[1], option_named("Y"));
    assert_eq!(add_stake(&mut event, 1, Choice::Yes, 7), Ok(()));
    assert_eq!(event.total_pool, 60);
    assert_eq!(
        event.options[1],
        Single { name: text("Y"), total_pool: 7, yes_pool: 7, no_pool: 0 }
    );
    assert_eq!(
        add_stake(&mut event, 2, Choice::Yes, 7),
        Err(ContractError::InvalidOption { option: 2 })
    );
    assert_eq!(
        add_stake(&mut event, 0, Choice::Yes, u128::MAX),
        Err(ContractError::PoolOverflow {})
    );
    assert_eq!(event.total_pool, 60);
}

#[test]
fn pools_add_up_after_every_bet() {
    let mut ledger = ledger_with_started_event();
    let stakes: [(&str, Choice, u64, u128); 4] = [
        ("U", Choice::Yes, 0, 100),
        ("V", Choice::No, 0, 40),
        ("W", Choice::No, 1, 7),
        ("X", Choice::Yes, 1, 1),
    ];
    for (user, choice, option, amount) in stakes {
        execute_place_bet(&mut ledger, &text(user), 1, choice, option, amount).unwrap();
        assert!(pools_add_up(&query_event_details(&ledger, 1).unwrap()));
    }
    let event = query_event_details(&ledger, 1).unwrap();
    assert_eq!(event.total_pool, 148);
    assert_eq!(
        event.options[0],
        Single { name: text("X"), total_pool: 140, yes_pool: 100, no_pool: 40 }
    );
    assert_eq!(
        event.options[1],
        Single { name: text("Y"), total_pool: 8, yes_pool: 1, no_pool: 7 }
    );
    assert_eq!(event.participants, vec![text("U"), text("V"), text("W"), text("X")]);
}

#[test]
fn bet_holds_the_option_as_it_stood() {
    let mut ledger = ledger_with_started_event();
    execute_place_bet(&mut ledger, &text("U"), 1, Choice::Yes, 0, 100).unwrap();
    let bet = execute_place_bet(&mut ledger, &text("V"), 1, Choice::No, 0, 40).unwrap();
    assert_eq!(
        bet,
        Bet {
            option: Single { name: text("X"), total_pool: 100, yes_pool: 100, no_pool: 0 },
            choice: Choice::No,
            amount: 40,
        }
    );
    assert_eq!(query_bet_details(&ledger, &text("V"), 1), Ok(bet));
    assert_eq!(query_bet_details(&ledger, &text("V"), 2), Err(ContractError::NotFound {}));
    assert_eq!(query_bet_details(&ledger, &text("W"), 1), Err(ContractError::NotFound {}));
}

#[test]
fn history_lists_bets_oldest_first() {
    let mut ledger = ledger_with_started_event();
    execute_add_event(
        &mut ledger,
        &text("A"),
        text("race"),
        2,
        text("sport"),
        vec![option_named("P")],
        10,
        20,
    )
    .unwrap();
    execute_start_event(&mut ledger, &text("A"), 2).unwrap();
    let first = execute_place_bet(&mut ledger, &text("U"), 1, Choice::Yes, 1, 3).unwrap();
    execute_place_bet(&mut ledger, &text("V"), 1, Choice::Yes, 1, 4).unwrap();
    let second = execute_place_bet(&mut ledger, &text("U"), 2, Choice::No, 0, 5).unwrap();
    assert_eq!(query_all_user_bets(&ledger, &text("U")), Ok(vec![first, second]));
}

#[test]
fn bets_are_accepted_on_a_resolved_event() {
    let mut ledger = ledger_with_started_event();
    execute_end_event(&mut ledger, &text("A"), 1, option_named("X")).unwrap();
    assert!(execute_place_bet(&mut ledger, &text("U"), 1, Choice::Yes, 0, 1).is_ok());
}

#[test]
fn attached_stake_reads_the_first_coin_of_the_denomination() {
    assert_eq!(attached_stake(&vec![]), 0);
    assert_eq!(attached_stake(&vec![Coin { denom: text("uatom"), amount: 9 }]), 0);
    assert_eq!(
        attached_stake(&vec![
            Coin { denom: text("uatom"), amount: 9 },
            Coin { denom: text("uzig"), amount: 12 },
            Coin { denom: text("uzig"), amount: 30 },
        ]),
        12
    );
}

#[test]
fn is_participant_finds_only_members() {
    let members = vec![text("U"), text("V")];
    assert!(is_participant(&members, &text("V")));
    assert!(!is_participant(&members, &text("W")));
    assert!(!is_participant(&vec![], &text("U")));
}

#[test]
fn execute_dispatches_every_command() {
    let mut ledger = fresh_ledger();
    let admin = text("A");
    let none: Vec<Coin> = vec![];
    assert_eq!(
        execute(
            &mut ledger,
            &admin,
            &none,
            ExecuteMsg::AddEvent {
                name: text("match"),
                event_id: 1,
                category: text("sport"),
                options: vec![option_named("X")],
                start_time: 10,
                end_time: 20,
            }
        ),
        Ok(())
    );
    assert_eq!(execute(&mut ledger, &admin, &none, ExecuteMsg::StartEvent { event_id: 1 }), Ok(()));
    assert_eq!(execute(&mut ledger, &admin, &none, ExecuteMsg::UpdateFee { new_fee: 300 }), Ok(()));
    assert_eq!(ledger.config.treasury_fee, 300);
    let bet = ExecuteMsg::PlaceBet { event_id: 1, choice: Choice::Yes, option: 0 };
    assert_eq!(
        execute(&mut ledger, &text("U"), &none, bet),
        Err(ContractError::NoBetFound {})
    );
    let bet = ExecuteMsg::PlaceBet { event_id: 1, choice: Choice::Yes, option: 0 };
    assert_eq!(
        execute(&mut ledger, &text("U"), &vec![Coin { denom: text("uatom"), amount: 5 }], bet),
        Err(ContractError::NoBetFound {})
    );
    let bet = ExecuteMsg::PlaceBet { event_id: 1, choice: Choice::Yes, option: 0 };
    assert_eq!(
        execute(&mut ledger, &text("U"), &vec![Coin { denom: text("uzig"), amount: 100 }], bet),
        Ok(())
    );
    assert_eq!(query_event_details(&ledger, 1).unwrap().total_pool, 100);
    assert_eq!(
        execute(
            &mut ledger,
            &admin,
            &none,
            ExecuteMsg::EndEvent { event_id: 1, result: option_named("X") }
        ),
        Ok(())
    );
    assert!(query_event_details(&ledger, 1).unwrap().resolved);
    assert_eq!(
        execute(&mut ledger, &text("B"), &none, ExecuteMsg::UpdateFee { new_fee: 1 }),
        Err(ContractError::Unauthorized {})
    );
}

#[test]
fn query_dispatches_every_query() {
    let mut ledger = ledger_with_started_event();
    let bet = execute_place_bet(&mut ledger, &text("U"), 1, Choice::Yes, 0, 100).unwrap();
    let event = query_event_details(&ledger, 1).unwrap();
    assert_eq!(
        query(&ledger, QueryMsg::GetEventDetails { event_id: 1 }),
        Ok(QueryResponse::Event(event))
    );
    assert_eq!(
        query(&ledger, QueryMsg::GetEventDetails { event_id: 2 }),
        Err(ContractError::NotFound {})
    );
    match query(&ledger, QueryMsg::GetAllEventDetails {}) {
        Ok(QueryResponse::Events(events)) => {
            assert_eq!(events.len(), 1);
            assert_eq!(events[0].total_pool, 0);
            assert!(!events[0].executed);
        }
        other => panic!("{:?}", other),
    }
    assert_eq!(
        query(&ledger, QueryMsg::GetBetDetails { user: text("U"), event_id: 1 }),
        Ok(QueryResponse::Bet(bet.clone()))
    );
    assert_eq!(
        query(&ledger, QueryMsg::GetAllUserBetDetails { user: text("U") }),
        Ok(QueryResponse::Bets(vec![bet]))
    );
    assert_eq!(
        query(&ledger, QueryMsg::GetAllUserBetDetails { user: text("V") }),
        Err(ContractError::NotFound {})
    );
}

#[test]
fn only_the_admin_passes_the_guard() {
    let ledger = fresh_ledger();
    assert_eq!(ensure_admin(&ledger, &text("A")), Ok(()));
    assert_eq!(ensure_admin(&ledger, &text("T")), Err(ContractError::Unauthorized {}));
    assert_eq!(ensure_admin(&ledger, &text("")), Err(ContractError::Unauthorized {}));
}

#[test]
fn emptied_options_keep_names_and_order() {
    let loaded = vec![
        Single { name: text("X"), total_pool: 9, yes_pool: 4, no_pool: 5 },
        Single { name: text("Y"), total_pool: 1, yes_pool: 1, no_pool: 0 },
    ];
    assert_eq!(emptied_options(&loaded), vec![option_named("X"), option_named("Y")]);
    assert_eq!(emptied_options(&vec![]), Vec::<Single>::new());
}

#[test]
fn clones_are_equal_to_what_they_copy() {
    let options = vec![
        Single { name: text("X"), total_pool: 9, yes_pool: 4, no_pool: 5 },
        option_named("Y"),
    ];
    assert_eq!(clone_singles(&options), options);
    let names = vec![text("U"), text("V")];
    assert_eq!(clone_texts(&names), names);
    let mut ledger = ledger_with_started_event();
    execute_place_bet(&mut ledger, &text("U"), 1, Choice::Yes, 0, 100).unwrap();
    let event = query_event_details(&ledger, 1).unwrap();
    assert_eq!(event.clone(), event);
    let bet = query_bet_details(&ledger, &text("U"), 1).unwrap();
    assert_eq!(bet.clone(), bet);
}

#[test]
fn nothing_is_lost_by_later_commands() {
    let mut ledger = ledger_with_started_event();
    execute_place_bet(&mut ledger, &text("U"), 1, Choice::Yes, 0, 100).unwrap();
    execute_add_event(
        &mut ledger,
        &text("A"),
        text("race"),
        2,
        text("sport"),
        vec![option_named("P")],
        10,
        20,
    )
    .unwrap();
    execute_update_fee(&mut ledger, &text("A"), 9).unwrap();
    execute_start_event(&mut ledger, &text("A"), 2).unwrap();
    execute_place_bet(&mut ledger, &text("V"), 2, Choice::No, 0, 1).unwrap();
    execute_end_event(&mut ledger, &text("A"), 2, option_named("P")).unwrap();
    let first = query_event_details(&ledger, 1).unwrap();
    assert!(first.executed);
    assert!(!first.resolved);
    assert_eq!(first.participants, vec![text("U")]);
    assert_eq!(first.total_pool, 100);
    assert_eq!(query_all_events(&ledger).len(), 2);
    assert_eq!(ledger.bets.len(), 2);
    assert_eq!(ledger.config.admin, "A");
    assert_eq!(ledger.config.treasury, "T");
    assert_eq!(
        query_bet_details(&ledger, &text("U"), 1),
        Ok(Bet { option: option_named("X"), choice: Choice::Yes, amount: 100 })
    );
}
