use crate::error::ContractError;
use crate::msg::InstantiateMsg;
use crate::state::{Config, ConfigView, Ledger, LedgerView};
use std::collections::HashMap;
use vstd::prelude::*;

verus! {

broadcast use vstd::std_specs::hash::group_hash_axioms;

/// The ledger as it is created: a configuration, and no event and no bet.
pub open spec fn initial_ledger(admin: Seq<char>, fee: u64, treasury: Seq<char>) -> LedgerView {
    LedgerView {
        config: ConfigView { admin, treasury_fee: fee, treasury },
        events: Map::empty(),
        all_events: Seq::empty(),
        bets: Seq::empty(),
    }
}

/// Creates the ledger with `sender` as its admin, the fee of `msg` and
/// `address` as its treasury. A fee outside 1..=10000 basis points is
/// refused, and nothing is created.
pub fn instantiate(sender: String, msg: InstantiateMsg, address: String) -> (r: Result<
    Ledger,
    ContractError,
>)
    ensures
        match r {
            Ok(ledger) => {
                &&& 1 <= msg.treasury_fee <= 10000
                &&& ledger@ == initial_ledger(sender@, msg.treasury_fee, address@)
                &&& ledger@.wf()
            },
            Err(e) => {
                &&& e == ContractError::IncorrectFee {  }
                &&& !(1 <= msg.treasury_fee <= 10000)
            },
        },
{
    if msg.treasury_fee > 10_000 || msg.treasury_fee == 0 {
        return Err(ContractError::IncorrectFee {  });
    }
    let ledger = Ledger {
        config: Config { admin: sender, treasury_fee: msg.treasury_fee, treasury: address },
        events: HashMap::new(),
        all_events: Vec::new(),
        bets: Vec::new(),
    };
    proof {
        let expected = initial_ledger(sender@, msg.treasury_fee, address@);
        assert(ledger@.events =~= expected.events);
        assert(ledger@.all_events =~= expected.all_events);
        assert(ledger@.bets =~= expected.bets);
    }
    Ok(ledger)
}

} // verus!
