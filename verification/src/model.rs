use vstd::prelude::*;

verus! {

/// What an account holds, as mathematical values.
pub struct AccountView {
    pub balance: nat,
    pub counters: Map<Seq<char>, int>,
}

/// A ledger as a mathematical value: the account of each known address.
pub type LedgerView = Map<Seq<char>, AccountView>;

/// One unit of change to a counter.
pub enum Step {
    Increment,
    Decrement,
}

impl Step {
    /// What the step adds to a counter.
    pub open spec fn delta(self) -> int {
        match self {
            Step::Increment => 1,
            Step::Decrement => -1,
        }
    }
}

/// The account that the first reference to an address creates.
pub open spec fn fresh_account() -> AccountView {
    AccountView { balance: 100, counters: Map::empty() }
}

/// The ledger once `address` has been referred to: unchanged where the
/// address is known, and holding a fresh account there where it is not.
pub open spec fn with_account(ledger: LedgerView, address: Seq<char>) -> LedgerView {
    if ledger.contains_key(address) {
        ledger
    } else {
        ledger.insert(address, fresh_account())
    }
}

/// The value of the counter `name` of the account at `address`, where both
/// exist.
pub open spec fn counter_value(ledger: LedgerView, address: Seq<char>, name: Seq<char>) -> Option<
    int,
> {
    if ledger.contains_key(address) && ledger[address].counters.contains_key(name) {
        Some(ledger[address].counters[name])
    } else {
        None
    }
}

/// The ledger with the counter `name` of the account at `address` set to
/// `value`, everything else as it was.
pub open spec fn with_counter(
    ledger: LedgerView,
    address: Seq<char>,
    name: Seq<char>,
    value: int,
) -> LedgerView {
    ledger.insert(
        address,
        AccountView {
            balance: ledger[address].balance,
            counters: ledger[address].counters.insert(name, value),
        },
    )
}

/// The ledger after a counter has been created: the account exists, and
/// its counter `name` stands at zero whatever it held before.
pub open spec fn counter_created(ledger: LedgerView, address: Seq<char>, name: Seq<char>) -> LedgerView {
    with_counter(with_account(ledger, address), address, name, 0)
}

/// The ledger after one step on a counter: the account exists; the counter
/// has moved by the step where the account has it, and nothing else has
/// changed where it has not.
pub open spec fn counter_stepped(
    ledger: LedgerView,
    address: Seq<char>,
    name: Seq<char>,
    step: Step,
) -> LedgerView {
    let present = with_account(ledger, address);
    match counter_value(present, address, name) {
        Some(value) => with_counter(present, address, name, value + step.delta()),
        None => present,
    }
}

/// The ledger after a sequence of steps on one counter, taken in order.
pub open spec fn counter_replayed(
    ledger: LedgerView,
    address: Seq<char>,
    name: Seq<char>,
    steps: Seq<Step>,
) -> LedgerView
    decreases steps.len(),
{
    if steps.len() == 0 {
        ledger
    } else {
        counter_stepped(
            counter_replayed(ledger, address, name, steps.drop_last()),
            address,
            name,
            steps.last(),
        )
    }
}

/// The sum of what the steps add.
pub open spec fn net_change(steps: Seq<Step>) -> int
    decreases steps.len(),
{
    if steps.len() == 0 {
        0
    } else {
        net_change(steps.drop_last()) + steps.last().delta()
    }
}

} // verus!
