use vstd::prelude::*;

verus! {

/// The side a bettor takes on an option.
#[derive(Clone, Copy, Debug, PartialEq, Eq, Structural)]
pub enum Choice {
    Yes,
    No,
}

/// One selectable outcome of an event, with its stake pools.
#[derive(Debug, PartialEq, Eq)]
pub struct Single {
    pub name: String,
    pub total_pool: u128,
    pub yes_pool: u128,
    pub no_pool: u128,
}

/// The mathematical value of a [`Single`].
pub struct SingleView {
    pub name: Seq<char>,
    pub total_pool: nat,
    pub yes_pool: nat,
    pub no_pool: nat,
}

impl SingleView {
    /// The option's total is the sum of its two sides.
    pub open spec fn balanced(self) -> bool {
        self.total_pool == self.yes_pool + self.no_pool
    }

    /// The option with nothing staked on it.
    pub open spec fn emptied(self) -> SingleView {
        SingleView { name: self.name, total_pool: 0, yes_pool: 0, no_pool: 0 }
    }

    /// The option after `amount` was staked on the side `choice`.
    pub open spec fn staked(self, choice: Choice, amount: nat) -> SingleView {
        SingleView {
            name: self.name,
            total_pool: self.total_pool + amount,
            yes_pool: if choice == Choice::Yes { self.yes_pool + amount } else { self.yes_pool },
            no_pool: if choice == Choice::No { self.no_pool + amount } else { self.no_pool },
        }
    }
}

impl View for Single {
    type V = SingleView;

    open spec fn view(&self) -> SingleView {
        SingleView {
            name: self.name@,
            total_pool: self.total_pool as nat,
            yes_pool: self.yes_pool as nat,
            no_pool: self.no_pool as nat,
        }
    }
}

impl Clone for Single {
    fn clone(&self) -> (res: Self)
        ensures
            res == *self,
    {
        Single {
            name: self.name.clone(),
            total_pool: self.total_pool,
            yes_pool: self.yes_pool,
            no_pool: self.no_pool,
        }
    }
}

/// The values of a sequence of options, in order.
pub open spec fn singles_view(s: Seq<Single>) -> Seq<SingleView> {
    Seq::new(s.len(), |i: int| s[i]@)
}

/// The texts of a sequence of strings, in order.
pub open spec fn texts_view(s: Seq<String>) -> Seq<Seq<char>> {
    Seq::new(s.len(), |i: int| s[i]@)
}

/// Funds of one denomination attached to a command.
#[derive(Debug, PartialEq, Eq)]
pub struct Coin {
    pub denom: String,
    pub amount: u128,
}

/// What the ledger is created with.
#[derive(Debug, PartialEq, Eq)]
pub struct InstantiateMsg {
    pub treasury_fee: u64,
    pub treasury: String,
}

/// The commands of the ledger.
#[derive(Debug, PartialEq, Eq)]
pub enum ExecuteMsg {
    StartEvent { event_id: u64 },
    EndEvent { event_id: u64, result: Single },
    AddEvent {
        name: String,
        event_id: u64,
        category: String,
        options: Vec<Single>,
        start_time: u64,
        end_time: u64,
    },
    UpdateFee { new_fee: u64 },
    PlaceBet { event_id: u64, choice: Choice, option: u64 },
}

/// The queries of the ledger.
#[derive(Debug, PartialEq, Eq)]
pub enum QueryMsg {
    GetEventDetails { event_id: u64 },
    GetAllEventDetails {},
    GetBetDetails { user: String, event_id: u64 },
    GetAllUserBetDetails { user: String },
}

} // verus!
