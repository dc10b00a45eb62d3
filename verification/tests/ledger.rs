use counter_ledger::error::LedgerError;
use counter_ledger::ledger::Blockchain;

#[test]
fn fresh_ledger_has_no_counters() {
    let ledger = Blockchain::new();
    assert_eq!(ledger.get_counter("user1", "default"), None);
    assert_eq!(ledger.get_counter("", ""), None);
}

#[test]
fn created_counter_reads_zero() {
    let mut ledger = Blockchain::new();
    ledger.create_counter("user1", "default");
    assert_eq!(ledger.get_counter("user1", "default"), Some(0));
}

#[test]
fn three_increments_read_three() {
    let mut ledger = Blockchain::new();
    ledger.create_counter("user1", "default");
    for _ in 0..3 {
        assert_eq!(ledger.increment_counter("user1", "default"), Ok(()));
    }
    assert_eq!(ledger.get_counter("user1", "default"), Some(3));
}

#[test]
fn five_decrements_after_three_increments_read_minus_two() {
    let mut ledger = Blockchain::new();
    ledger.create_counter("user1", "default");
    for _ in 0..3 {
        assert_eq!(ledger.increment_counter("user1", "default"), Ok(()));
    }
    for _ in 0..5 {
        assert_eq!(ledger.decrement_counter("user1", "default"), Ok(()));
    }
    assert_eq!(ledger.get_counter("user1", "default"), Some(-2));
}

#[test]
fn increment_of_missing_counter_fails_by_name() {
    let mut ledger = Blockchain::new();
    let result = ledger.increment_counter("user1", "missing");
    assert_eq!(result, Err(LedgerError::CounterNotFound("missing".to_string())));
    assert_eq!(ledger.get_counter("user1", "missing"), None);
}

#[test]
fn decrement_of_missing_counter_fails_by_name() {
    let mut ledger = Blockchain::new();
    let result = ledger.decrement_counter("user1", "missing");
    assert_eq!(result, Err(LedgerError::CounterNotFound("missing".to_string())));
    assert_eq!(ledger.get_counter("user1", "missing"), None);
}

#[test]
fn failed_step_changes_no_counter() {
    let mut ledger = Blockchain::new();
    ledger.create_counter("alice", "visits");
    ledger.create_counter("bob", "visits");
    assert_eq!(ledger.increment_counter("alice", "visits"), Ok(()));
    assert_eq!(ledger.decrement_counter("bob", "visits"), Ok(()));

    assert!(ledger.increment_counter("alice", "clicks").is_err());
    assert!(ledger.decrement_counter("bob", "clicks").is_err());
    assert!(ledger.increment_counter("carol", "visits").is_err());

    assert_eq!(ledger.get_counter("alice", "visits"), Some(1));
    assert_eq!(ledger.get_counter("bob", "visits"), Some(-1));
    assert_eq!(ledger.get_counter("alice", "clicks"), None);
    assert_eq!(ledger.get_counter("bob", "clicks"), None);
    assert_eq!(ledger.get_counter("carol", "visits"), None);
}

#[test]
fn error_message_names_the_counter() {
    let error = LedgerError::CounterNotFound("missing".to_string());
    assert_eq!(error.message(), "Counter 'missing' not found");
    let unnamed = LedgerError::CounterNotFound(String::new());
    assert_eq!(unnamed.message(), "Counter '' not found");
}

#[test]
fn error_of_a_failed_step_carries_its_message() {
    let mut ledger = Blockchain::new();
    ledger.create_counter("user1", "default");
    let error = ledger.decrement_counter("user1", "Default").unwrap_err();
    assert_eq!(error.message(), "Counter 'Default' not found");
}

#[test]
fn new_account_starts_with_balance_100_and_no_counters() {
    let mut ledger = Blockchain::new();
    let account = ledger.get_or_create_account("user1");
    assert_eq!(account.balance, 100);
    assert!(account.counters.is_empty());
    assert_eq!(account.counters.len(), 0);
}

#[test]
fn second_lookup_gives_the_same_account() {
    let mut ledger = Blockchain::new();
    {
        let account = ledger.get_or_create_account("user1");
        account.balance = 42;
        account.counters.insert("visits".to_string(), 7);
    }
    let again = ledger.get_or_create_account("user1");
    assert_eq!(again.balance, 42);
    assert_eq!(again.counters.get("visits"), Some(&7));
    assert_eq!(again.counters.len(), 1);
    assert_eq!(ledger.get_counter("user1", "visits"), Some(7));
}

#[test]
fn lookup_does_not_reset_counters() {
    let mut ledger = Blockchain::new();
    ledger.create_counter("user1", "default");
    assert_eq!(ledger.increment_counter("user1", "default"), Ok(()));
    assert_eq!(ledger.increment_counter("user1", "default"), Ok(()));
    let first = ledger.get_or_create_account("user1").counters.get("default").copied();
    let second = ledger.get_or_create_account("user1").counters.get("default").copied();
    assert_eq!(first, Some(2));
    assert_eq!(second, Some(2));
    assert_eq!(ledger.get_or_create_account("user1").balance, 100);
}

#[test]
fn accounts_are_kept_apart() {
    let mut ledger = Blockchain::new();
    ledger.get_or_create_account("alice").balance = 1;
    ledger.get_or_create_account("bob").balance = 2;
    ledger.get_or_create_account("carol");
    assert_eq!(ledger.get_or_create_account("alice").balance, 1);
    assert_eq!(ledger.get_or_create_account("bob").balance, 2);
    assert_eq!(ledger.get_or_create_account("carol").balance, 100);

    ledger.create_counter("alice", "n");
    assert_eq!(ledger.increment_counter("alice", "n"), Ok(()));
    assert_eq!(ledger.get_counter("alice", "n"), Some(1));
    assert_eq!(ledger.get_counter("bob", "n"), None);
    assert_eq!(ledger.get_or_create_account("alice").balance, 1);
}

#[test]
fn counter_written_through_the_account_is_read_by_the_ledger() {
    let mut ledger = Blockchain::new();
    ledger.get_or_create_account("user1").counters.insert("stock".to_string(), -9);
    assert_eq!(ledger.get_counter("user1", "stock"), Some(-9));
    assert_eq!(ledger.increment_counter("user1", "stock"), Ok(()));
    assert_eq!(ledger.get_counter("user1", "stock"), Some(-8));
}

#[test]
fn creating_an_existing_counter_resets_it() {
    let mut ledger = Blockchain::new();
    ledger.create_counter("user1", "default");
    ledger.create_counter("user1", "other");
    assert_eq!(ledger.increment_counter("user1", "default"), Ok(()));
    assert_eq!(ledger.increment_counter("user1", "other"), Ok(()));
    ledger.create_counter("user1", "default");
    assert_eq!(ledger.get_counter("user1", "default"), Some(0));
    assert_eq!(ledger.get_counter("user1", "other"), Some(1));
}

#[test]
fn creating_a_counter_keeps_the_balance() {
    let mut ledger = Blockchain::new();
    ledger.get_or_create_account("user1").balance = 5;
    ledger.create_counter("user1", "default");
    assert_eq!(ledger.get_or_create_account("user1").balance, 5);
}

#[test]
fn steps_add_up_in_order() {
    let mut ledger = Blockchain::new();
    ledger.create_counter("user1", "default");
    let steps = [1, 1, -1, 1, -1, -1, -1, 1, 1, 1, 1, -1];
    let mut expected: i64 = 0;
    for step in steps {
        if step == 1 {
            assert_eq!(ledger.increment_counter("user1", "default"), Ok(()));
        } else {
            assert_eq!(ledger.decrement_counter("user1", "default"), Ok(()));
        }
        expected += step;
        assert_eq!(ledger.get_counter("user1", "default"), Some(expected));
    }
    assert_eq!(ledger.get_counter("user1", "default"), Some(2));
}

#[test]
fn decrement_goes_below_zero() {
    let mut ledger = Blockchain::new();
    ledger.create_counter("user1", "default");
    assert_eq!(ledger.decrement_counter("user1", "default"), Ok(()));
    assert_eq!(ledger.get_counter("user1", "default"), Some(-1));
    assert_eq!(ledger.decrement_counter("user1", "default"), Ok(()));
    assert_eq!(ledger.get_counter("user1", "default"), Some(-2));
}

#[test]
fn absent_differs_from_zero() {
    let mut ledger = Blockchain::new();
    ledger.create_counter("user1", "default");
    assert_eq!(ledger.get_counter("user1", "default"), Some(0));
    assert_eq!(ledger.get_counter("user1", "other"), None);
    assert_eq!(ledger.get_counter("user2", "default"), None);
    assert_ne!(ledger.get_counter("user1", "default"), ledger.get_counter("user1", "other"));
}

#[test]
fn reading_creates_nothing() {
    let mut ledger = Blockchain::new();
    assert_eq!(ledger.get_counter("user1", "default"), None);
    assert_eq!(ledger.get_counter("user1", "default"), None);
    assert!(ledger.increment_counter("user1", "default").is_err());
}

#[test]
fn names_are_compared_exactly() {
    let mut ledger = Blockchain::new();
    ledger.create_counter("user1", "default");
    assert_eq!(ledger.get_counter("user1", "default "), None);
    assert_eq!(ledger.get_counter("User1", "default"), None);
    assert_eq!(ledger.get_counter("user1", "défault"), None);
    ledger.create_counter("", "");
    assert_eq!(ledger.get_counter("", ""), Some(0));
}

#[test]
fn steps_reach_the_ends_of_the_range() {
    let mut ledger = Blockchain::new();
    ledger.get_or_create_account("user1").counters.insert("high".to_string(), i64::MAX - 1);
    ledger.get_or_create_account("user1").counters.insert("low".to_string(), i64::MIN + 1);
    assert_eq!(ledger.increment_counter("user1", "high"), Ok(()));
    assert_eq!(ledger.decrement_counter("user1", "low"), Ok(()));
    assert_eq!(ledger.get_counter("user1", "high"), Some(i64::MAX));
    assert_eq!(ledger.get_counter("user1", "low"), Some(i64::MIN));
    assert_eq!(ledger.decrement_counter("user1", "high"), Ok(()));
    assert_eq!(ledger.increment_counter("user1", "low"), Ok(()));
    assert_eq!(ledger.get_counter("user1", "high"), Some(i64::MAX - 1));
    assert_eq!(ledger.get_counter("user1", "low"), Some(i64::MIN + 1));
}
