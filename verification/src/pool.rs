use crate::error::ContractError;
use crate::msg::{singles_view, Choice, SingleView};
use crate::state::{pool_sum, Event, EventView};
use cosmwasm_std::Uint128;
use vstd::prelude::*;

verus! {

/// The sum of two amounts as `cosmwasm_std::Uint128::checked_add` gives it:
/// the exact sum where 128 bits hold it, and nothing where they do not.
#[verifier::external_body]
fn checked_sum(a: u128, b: u128) -> (r: Option<u128>)
    ensures
        a + b <= u128::MAX ==> r == Some((a + b) as u128),
        a + b > u128::MAX ==> r.is_none(),
{
    match Uint128::new(a).checked_add(Uint128::new(b)) {
        Ok(sum) => Some(sum.u128()),
        Err(_) => None,
    }
}

/// Whether the three totals that a stake raises stay within 128 bits.
pub open spec fn stake_fits(event: EventView, option: int, choice: Choice, amount: nat) -> bool {
    let o = event.options[option];
    &&& event.total_pool + amount <= u128::MAX
    &&& o.total_pool + amount <= u128::MAX
    &&& (if choice == Choice::Yes { o.yes_pool } else { o.no_pool }) + amount <= u128::MAX
}

/// Staking `amount` on one option raises the sum of the options' totals by
/// `amount`.
pub proof fn lemma_pool_sum_staked(options: Seq<SingleView>, i: int, choice: Choice, amount: nat)
    requires
        0 <= i < options.len(),
    ensures
        pool_sum(options.update(i, options[i].staked(choice, amount))) == pool_sum(options)
            + amount,
    decreases options.len(),
{
    let updated = options.update(i, options[i].staked(choice, amount));
    if i == options.len() - 1 {
        assert(updated.drop_last() =~= options.drop_last());
    } else {
        let front = options.drop_last();
        lemma_pool_sum_staked(front, i, choice, amount);
        assert(updated.drop_last() =~= front.update(i, front[i].staked(choice, amount)));
    }
}

/// An event whose pools add up still has pools that add up after any stake
/// on one of its options.
pub proof fn lemma_stake_keeps_pools(event: EventView, option: int, choice: Choice, amount: nat)
    requires
        event.wf(),
        0 <= option < event.options.len(),
    ensures
        event.with_stake(option, choice, amount).wf(),
{
    lemma_pool_sum_staked(event.options, option, choice, amount);
}

/// Adds `amount` to the event's total, to the total of the option at
/// `option` and to that option's side `choice`. Fails, and changes nothing,
/// where there is no such option or where one of the three would overflow.
pub fn add_stake(event: &mut Event, option: u64, choice: Choice, amount: u128) -> (r: Result<
    (),
    ContractError,
>)
    ensures
        match r {
            Ok(_) => {
                &&& option < old(event).options.len()
                &&& stake_fits(old(event)@, option as int, choice, amount as nat)
                &&& final(event)@ == old(event)@.with_stake(option as int, choice, amount as nat)
            },
            Err(e) => {
                &&& *final(event) == *old(event)
                &&& option >= old(event).options.len() ==> e == (ContractError::InvalidOption {
                    option,
                })
                &&& option < old(event).options.len() ==> e == (ContractError::PoolOverflow {  })
                    && !stake_fits(old(event)@, option as int, choice, amount as nat)
            },
        },
        old(event)@.wf() ==> final(event)@.wf(),
{
    if option >= event.options.len() as u64 {
        return Err(ContractError::InvalidOption { option });
    }
    let i: usize = option as usize;
    let yes: u128 = event.options[i].yes_pool;
    let no: u128 = event.options[i].no_pool;
    let total = checked_sum(event.total_pool, amount);
    let option_total = checked_sum(event.options[i].total_pool, amount);
    let side = checked_sum(
        match choice {
            Choice::Yes => yes,
            Choice::No => no,
        },
        amount,
    );
    match (total, option_total, side) {
        (Some(t), Some(p), Some(s)) => {
            event.total_pool = t;
            event.options[i].total_pool = p;
            match choice {
                Choice::Yes => {
                    event.options[i].yes_pool = s;
                },
                Choice::No => {
                    event.options[i].no_pool = s;
                },
            }
            proof {
                assert(singles_view(event.options@) =~= singles_view(old(event).options@).update(
                    i as int,
                    old(event).options@[i as int]@.staked(choice, amount as nat),
                ));
                if old(event)@.wf() {
                    lemma_stake_keeps_pools(old(event)@, i as int, choice, amount as nat);
                }
            }
            Ok(())
        },
        _ => Err(ContractError::PoolOverflow {  }),
    }
}

} // verus!
