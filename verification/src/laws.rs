use crate::model::{
    counter_created, counter_replayed, counter_stepped, counter_value, net_change, with_account,
    with_counter, AccountView, LedgerView, Step,
};
use vstd::prelude::*;

verus! {

/// Looking an address up is idempotent. Once an address has been looked up,
/// and whatever the borrower of its account has left there, a second lookup
/// changes nothing in the ledger and gives that same account: neither its
/// balance nor its counters are reset.
pub proof fn lemma_lookup_is_idempotent(ledger: LedgerView, address: Seq<char>, left: AccountView)
    ensures
        with_account(with_account(ledger, address), address) == with_account(ledger, address),
        with_account(with_account(ledger, address).insert(address, left), address)
            == with_account(ledger, address).insert(address, left),
        with_account(with_account(ledger, address).insert(address, left), address)[address]
            == left,
{
}

/// A lookup creates at most an empty account: it changes no counter's
/// value, at any address.
pub proof fn lemma_lookup_keeps_counters(
    ledger: LedgerView,
    address: Seq<char>,
    other: Seq<char>,
    name: Seq<char>,
)
    ensures
        counter_value(with_account(ledger, address), other, name) == counter_value(
            ledger,
            other,
            name,
        ),
{
}

/// A counter that has just been created reads zero, whatever the ledger
/// held before.
pub proof fn lemma_created_counter_reads_zero(
    ledger: LedgerView,
    address: Seq<char>,
    name: Seq<char>,
)
    ensures
        counter_value(counter_created(ledger, address, name), address, name) == Some(0int),
{
}

/// One step on an existing counter moves it by exactly one, up or down,
/// and touches nothing else in the ledger.
pub proof fn lemma_step_moves_by_one(
    ledger: LedgerView,
    address: Seq<char>,
    name: Seq<char>,
    step: Step,
    value: int,
)
    requires
        counter_value(ledger, address, name) == Some(value),
    ensures
        counter_stepped(ledger, address, name, step) == with_counter(
            ledger,
            address,
            name,
            value + step.delta(),
        ),
        counter_value(counter_stepped(ledger, address, name, step), address, name) == Some(
            value + step.delta(),
        ),
{
}

/// Counters have no floor: a decrement of a counter that stands at zero or
/// below takes place and leaves a negative value.
pub proof fn lemma_decrement_has_no_floor(
    ledger: LedgerView,
    address: Seq<char>,
    name: Seq<char>,
    value: int,
)
    requires
        counter_value(ledger, address, name) == Some(value),
        value <= 0,
    ensures
        counter_value(counter_stepped(ledger, address, name, Step::Decrement), address, name)
            == Some(value - 1),
        value - 1 < 0,
{
}

/// A step on a counter that the account does not have creates nothing but,
/// at most, the empty account: no counter, at any address, changes its
/// value or comes into being.
pub proof fn lemma_missing_counter_stays_missing(
    ledger: LedgerView,
    address: Seq<char>,
    name: Seq<char>,
    step: Step,
)
    requires
        counter_value(ledger, address, name) is None,
    ensures
        counter_stepped(ledger, address, name, step) == with_account(ledger, address),
        forall|a: Seq<char>, c: Seq<char>|
            counter_value(counter_stepped(ledger, address, name, step), a, c) == counter_value(
                ledger,
                a,
                c,
            ),
{
}

/// Steps taken in order on an existing counter add up: after any sequence
/// of increments and decrements the counter stands at its first value plus
/// the net change of the sequence, and nothing else in the ledger differs.
pub proof fn lemma_steps_add_up(
    ledger: LedgerView,
    address: Seq<char>,
    name: Seq<char>,
    steps: Seq<Step>,
    value: int,
)
    requires
        counter_value(ledger, address, name) == Some(value),
    ensures
        counter_value(counter_replayed(ledger, address, name, steps), address, name) == Some(
            value + net_change(steps),
        ),
        counter_replayed(ledger, address, name, steps) == with_counter(
            ledger,
            address,
            name,
            value + net_change(steps),
        ),
    decreases steps.len(),
{
    if steps.len() == 0 {
        assert(ledger[address].counters.insert(name, value) =~= ledger[address].counters);
        assert(with_counter(ledger, address, name, value) =~= ledger);
    } else {
        let earlier = steps.drop_last();
        lemma_steps_add_up(ledger, address, name, earlier, value);
        let reached = counter_replayed(ledger, address, name, earlier);
        lemma_step_moves_by_one(reached, address, name, steps.last(), value + net_change(earlier));
        let total = value + net_change(steps);
        assert(reached[address].counters.insert(name, total) =~= ledger[address].counters.insert(
            name,
            total,
        ));
        assert(with_counter(reached, address, name, total) =~= with_counter(
            ledger,
            address,
            name,
            total,
        ));
    }
}

} // verus!
