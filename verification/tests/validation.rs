use astroid_multisig::errors::Error;
use astroid_multisig::ledger::Ledger;
use astroid_multisig::validation::{
    require_non_empty, require_non_negative_amount, require_not_expired, require_positive_amount,
    require_time_reached, require_within_amount_bounds,
};
use soroban_sdk::{Env, String};

#[test]
fn positive_amount_is_strict() {
    assert_eq!(require_positive_amount(1), Ok(()));
    assert_eq!(require_positive_amount(i128::MAX), Ok(()));
    assert_eq!(require_positive_amount(0), Err(Error::InvalidAmount));
    assert_eq!(require_positive_amount(-1), Err(Error::InvalidAmount));
    assert_eq!(require_positive_amount(i128::MIN), Err(Error::InvalidAmount));
}

#[test]
fn non_negative_amount_allows_zero() {
    assert_eq!(require_non_negative_amount(0), Ok(()));
    assert_eq!(require_non_negative_amount(7), Ok(()));
    assert_eq!(require_non_negative_amount(-1), Err(Error::InvalidAmount));
}

#[test]
fn positive_amounts_are_non_negative_but_for_zero() {
    for amount in [-5i128, -1, 0, 1, 5] {
        assert_eq!(
            require_positive_amount(amount).is_ok(),
            require_non_negative_amount(amount).is_ok() && amount != 0
        );
    }
}

#[test]
fn texts_must_not_be_empty() {
    let env = Env::default();
    assert_eq!(
        require_non_empty(&String::from_str(&env, "")),
        Err(Error::InvalidInput)
    );
    assert_eq!(require_non_empty(&String::from_str(&env, "x")), Ok(()));
    assert_eq!(require_non_empty(&String::from_str(&env, "astroid")), Ok(()));
}

#[test]
fn expiry_is_exclusive() {
    let ledger = Ledger::new(1_000);
    assert_eq!(require_not_expired(&ledger, 1_001), Ok(()));
    assert_eq!(
        require_not_expired(&ledger, 1_000),
        Err(Error::ProposalExpired)
    );
    assert_eq!(require_not_expired(&ledger, 0), Err(Error::ProposalExpired));
}

#[test]
fn time_lock_is_inclusive() {
    let ledger = Ledger::new(1_000);
    assert_eq!(require_time_reached(&ledger, 1_001), Err(Error::TimeLocked));
    assert_eq!(require_time_reached(&ledger, 1_000), Ok(()));
    assert_eq!(require_time_reached(&ledger, 0), Ok(()));
}

#[test]
fn a_moment_is_expired_or_locked() {
    let ledger = Ledger::new(1_000);
    for moment in [0u64, 999, 1_000, 1_001, u64::MAX] {
        assert_eq!(
            require_not_expired(&ledger, moment).is_ok(),
            require_time_reached(&ledger, moment).is_err()
        );
    }
}

#[test]
fn time_is_one_way() {
    let now = Ledger::new(1_000);
    let later = Ledger::new(2_000);
    assert_eq!(require_not_expired(&now, 900), Err(Error::ProposalExpired));
    assert_eq!(require_not_expired(&later, 900), Err(Error::ProposalExpired));
    assert_eq!(require_time_reached(&now, 900), Ok(()));
    assert_eq!(require_time_reached(&later, 900), Ok(()));
}

#[test]
fn amount_bounds_are_inclusive() {
    assert_eq!(require_within_amount_bounds(10, 10, 20), Ok(()));
    assert_eq!(require_within_amount_bounds(20, 10, 20), Ok(()));
    assert_eq!(
        require_within_amount_bounds(9, 10, 20),
        Err(Error::PolicyDenied)
    );
    assert_eq!(
        require_within_amount_bounds(21, 10, 20),
        Err(Error::PolicyDenied)
    );
}

#[test]
fn zero_upper_bound_is_none() {
    assert_eq!(require_within_amount_bounds(i128::MAX, 10, 0), Ok(()));
    assert_eq!(
        require_within_amount_bounds(9, 10, 0),
        Err(Error::PolicyDenied)
    );
    assert_eq!(
        require_within_amount_bounds(-2, -5, -3),
        Err(Error::PolicyDenied)
    );
}
