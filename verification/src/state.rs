use crate::msg::{singles_view, texts_view, Choice, Single, SingleView};
use std::collections::HashMap;
use vstd::prelude::*;

verus! {

/// The admin, the treasury and its fee in basis points.
#[derive(Debug, PartialEq, Eq)]
pub struct Config {
    pub admin: String,
    pub treasury_fee: u64,
    pub treasury: String,
}

/// The mathematical value of a [`Config`].
pub struct ConfigView {
    pub admin: Seq<char>,
    pub treasury_fee: u64,
    pub treasury: Seq<char>,
}

/// The fees a treasury may charge: 1 to 10000 basis points.
pub open spec fn fee_in_range(fee: u64) -> bool {
    1 <= fee <= 10000
}

impl View for Config {
    type V = ConfigView;

    open spec fn view(&self) -> ConfigView {
        ConfigView { admin: self.admin@, treasury_fee: self.treasury_fee, treasury: self.treasury@ }
    }
}

/// A proposition with options to bet on, from its creation to its resolution.
#[derive(Debug, PartialEq, Eq)]
pub struct Event {
    pub event_id: u64,
    pub name: String,
    pub category: String,
    pub start_time: u64,
    pub end_time: u64,
    pub resolved: bool,
    pub options: Vec<Single>,
    pub total_pool: u128,
    pub result: Option<Single>,
    pub executed: bool,
    pub participants: Vec<String>,
}

/// The mathematical value of an [`Event`].
pub struct EventView {
    pub event_id: u64,
    pub name: Seq<char>,
    pub category: Seq<char>,
    pub start_time: u64,
    pub end_time: u64,
    pub resolved: bool,
    pub options: Seq<SingleView>,
    pub total_pool: nat,
    pub result: Option<SingleView>,
    pub executed: bool,
    pub participants: Seq<Seq<char>>,
}

/// The sum of the total pools of `options`.
pub open spec fn pool_sum(options: Seq<SingleView>) -> nat
    decreases options.len(),
{
    if options.len() == 0 {
        0
    } else {
        pool_sum(options.drop_last()) + options.last().total_pool
    }
}

impl EventView {
    /// The event's total is the sum of its options' totals, and every option
    /// is the sum of its two sides.
    pub open spec fn wf(self) -> bool {
        &&& self.total_pool == pool_sum(self.options)
        &&& forall|i: int| 0 <= i < self.options.len() ==> (#[trigger] self.options[i]).balanced()
    }

    /// The event once it is open for bets.
    pub open spec fn started(self) -> EventView {
        EventView { executed: true, ..self }
    }

    /// The event once `result` is fixed as its outcome.
    pub open spec fn ended(self, result: SingleView) -> EventView {
        EventView { resolved: true, result: Some(result), ..self }
    }

    /// The event's pools after `amount` went to the side `choice` of the
    /// option at `option`.
    pub open spec fn with_stake(self, option: int, choice: Choice, amount: nat) -> EventView {
        EventView {
            options: self.options.update(option, self.options[option].staked(choice, amount)),
            total_pool: self.total_pool + amount,
            ..self
        }
    }

    /// The event with `user` as its latest participant.
    pub open spec fn joined_by(self, user: Seq<char>) -> EventView {
        EventView { participants: self.participants.push(user), ..self }
    }
}

impl View for Event {
    type V = EventView;

    open spec fn view(&self) -> EventView {
        EventView {
            event_id: self.event_id,
            name: self.name@,
            category: self.category@,
            start_time: self.start_time,
            end_time: self.end_time,
            resolved: self.resolved,
            options: singles_view(self.options@),
            total_pool: self.total_pool as nat,
            result: match self.result {
                Some(s) => Some(s@),
                None => None,
            },
            executed: self.executed,
            participants: texts_view(self.participants@),
        }
    }
}

/// A copy of `v`, option by option.
pub fn clone_singles(v: &Vec<Single>) -> (res: Vec<Single>)
    ensures
        res@ == v@,
{
    let mut out: Vec<Single> = Vec::new();
    let mut i: usize = 0;
    while i < v.len()
        invariant
            i <= v.len(),
            out@ == v@.take(i as int),
        decreases v.len() - i,
    {
        out.push(v[i].clone());
        proof {
            assert(v@.take(i + 1) =~= v@.take(i as int).push(v@[i as int]));
        }
        i += 1;
    }
    proof {
        assert(v@.take(v.len() as int) =~= v@);
    }
    out
}

/// A copy of `v`, string by string.
pub fn clone_texts(v: &Vec<String>) -> (res: Vec<String>)
    ensures
        res@ == v@,
{
    let mut out: Vec<String> = Vec::new();
    let mut i: usize = 0;
    while i < v.len()
        invariant
            i <= v.len(),
            out@ == v@.take(i as int),
        decreases v.len() - i,
    {
        out.push(v[i].clone());
        proof {
            assert(v@.take(i + 1) =~= v@.take(i as int).push(v@[i as int]));
        }
        i += 1;
    }
    proof {
        assert(v@.take(v.len() as int) =~= v@);
    }
    out
}

impl Clone for Event {
    fn clone(&self) -> (res: Self)
        ensures
            res@ == self@,
    {
        let result = match &self.result {
            Some(s) => Some(s.clone()),
            None => None,
        };
        Event {
            event_id: self.event_id,
            name: self.name.clone(),
            category: self.category.clone(),
            start_time: self.start_time,
            end_time: self.end_time,
            resolved: self.resolved,
            options: clone_singles(&self.options),
            total_pool: self.total_pool,
            result,
            executed: self.executed,
            participants: clone_texts(&self.participants),
        }
    }
}

/// A stake: the option as it stood when the bet was placed, the side taken
/// and the amount.
#[derive(Debug, PartialEq, Eq)]
pub struct Bet {
    pub option: Single,
    pub choice: Choice,
    pub amount: u128,
}

/// The mathematical value of a [`Bet`].
pub struct BetView {
    pub option: SingleView,
    pub choice: Choice,
    pub amount: nat,
}

impl View for Bet {
    type V = BetView;

    open spec fn view(&self) -> BetView {
        BetView { option: self.option@, choice: self.choice, amount: self.amount as nat }
    }
}

impl Clone for Bet {
    fn clone(&self) -> (res: Self)
        ensures
            res == *self,
    {
        Bet { option: self.option.clone(), choice: self.choice, amount: self.amount }
    }
}

/// One line of the bet ledger: who staked what on which event.
#[derive(Debug, PartialEq, Eq)]
pub struct BetRecord {
    pub event_id: u64,
    pub user: String,
    pub bet: Bet,
}

/// The mathematical value of a [`BetRecord`].
pub struct BetRecordView {
    pub event_id: u64,
    pub user: Seq<char>,
    pub bet: BetView,
}

impl View for BetRecord {
    type V = BetRecordView;

    open spec fn view(&self) -> BetRecordView {
        BetRecordView { event_id: self.event_id, user: self.user@, bet: self.bet@ }
    }
}

/// The values of a sequence of events, in order.
pub open spec fn events_view(s: Seq<Event>) -> Seq<EventView> {
    Seq::new(s.len(), |i: int| s[i]@)
}

/// The values of a sequence of bets, in order.
pub open spec fn bets_view(s: Seq<Bet>) -> Seq<BetView> {
    Seq::new(s.len(), |i: int| s[i]@)
}

/// The values of the lines of a bet ledger, in order.
pub open spec fn records_view(s: Seq<BetRecord>) -> Seq<BetRecordView> {
    Seq::new(s.len(), |i: int| s[i]@)
}

/// The bet that `user` holds on the event `event_id`: the latest line of
/// `log` under that pair, if there is one.
pub open spec fn bet_of(log: Seq<BetRecordView>, event_id: u64, user: Seq<char>) -> Option<BetView>
    decreases log.len(),
{
    if log.len() == 0 {
        None
    } else if log.last().event_id == event_id && log.last().user == user {
        Some(log.last().bet)
    } else {
        bet_of(log.drop_last(), event_id, user)
    }
}

/// The bets of `user` in `log`, oldest first.
pub open spec fn history_of(log: Seq<BetRecordView>, user: Seq<char>) -> Seq<BetView>
    decreases log.len(),
{
    if log.len() == 0 {
        Seq::empty()
    } else if log.last().user == user {
        history_of(log.drop_last(), user).push(log.last().bet)
    } else {
        history_of(log.drop_last(), user)
    }
}

/// The whole state: the configuration, the events by id, the list of events
/// as they were added, and every bet in the order of placement.
#[derive(Debug, PartialEq, Eq)]
pub struct Ledger {
    pub config: Config,
    pub events: HashMap<u64, Event>,
    pub all_events: Vec<Event>,
    pub bets: Vec<BetRecord>,
}

/// The mathematical value of a [`Ledger`].
pub struct LedgerView {
    pub config: ConfigView,
    pub events: Map<u64, EventView>,
    pub all_events: Seq<EventView>,
    pub bets: Seq<BetRecordView>,
}

impl LedgerView {
    /// The fee is in range, every event is stored under its own id, and the
    /// pools of every stored and every listed event add up.
    pub open spec fn wf(self) -> bool {
        &&& fee_in_range(self.config.treasury_fee)
        &&& forall|id: u64| #[trigger]
            self.events.contains_key(id) ==> self.events[id].wf() && self.events[id].event_id == id
        &&& forall|i: int| 0 <= i < self.all_events.len() ==> (#[trigger] self.all_events[i]).wf()
    }

    /// Whether `user` is the admin.
    pub open spec fn is_admin(self, user: Seq<char>) -> bool {
        user == self.config.admin
    }
}

impl View for Ledger {
    type V = LedgerView;

    open spec fn view(&self) -> LedgerView {
        LedgerView {
            config: self.config@,
            events: Map::new(|id: u64| self.events@.contains_key(id), |id: u64| self.events@[id]@),
            all_events: events_view(self.all_events@),
            bets: records_view(self.bets@),
        }
    }
}

} // verus!
