use option_escrow::timelock::{check_time_bound, TimeBound, TimeBoundKind};
use soroban_sdk::testutils::Ledger;
use soroban_sdk::Env;

#[test]
fn after_is_met_from_its_timestamp_on() {
    let bound = TimeBound { kind: TimeBoundKind::After, timestamp: 1000 };
    assert!(!bound.check(0));
    assert!(!bound.check(999));
    assert!(bound.check(1000));
    assert!(bound.check(1001));
    assert!(bound.check(u64::MAX));
}

#[test]
fn before_is_met_up_to_its_timestamp() {
    let bound = TimeBound { kind: TimeBoundKind::Before, timestamp: 1000 };
    assert!(bound.check(0));
    assert!(bound.check(999));
    assert!(bound.check(1000));
    assert!(!bound.check(1001));
    assert!(!bound.check(u64::MAX));
}

#[test]
fn expiration_is_an_after_bound() {
    let bound = TimeBound::expiring_at(77);
    assert_eq!(bound, TimeBound { kind: TimeBoundKind::After, timestamp: 77 });
}

#[test]
fn bound_is_tested_against_the_ledger_time() {
    let env = Env::default();
    let after = TimeBound { kind: TimeBoundKind::After, timestamp: 1000 };
    let before = TimeBound { kind: TimeBoundKind::Before, timestamp: 1000 };

    env.ledger().set_timestamp(999);
    assert!(!check_time_bound(&env, &after));
    assert!(check_time_bound(&env, &before));

    env.ledger().set_timestamp(1000);
    assert!(check_time_bound(&env, &after));
    assert!(check_time_bound(&env, &before));

    env.ledger().set_timestamp(1001);
    assert!(check_time_bound(&env, &after));
    assert!(!check_time_bound(&env, &before));
}

#[test]
fn bounds_at_the_ends_of_time_are_always_met() {
    let env = Env::default();
    env.ledger().set_timestamp(123_456);
    assert!(check_time_bound(&env, &TimeBound { kind: TimeBoundKind::After, timestamp: 0 }));
    assert!(check_time_bound(&env, &TimeBound { kind: TimeBoundKind::Before, timestamp: u64::MAX }));
}
