//! Small guards: each is `Ok` when what it asks for holds and a fixed error
//! otherwise.

use crate::errors::Error;
use crate::ledger::Ledger;
use vstd::prelude::*;

verus! {

/// What [`require_positive_amount`] answers.
pub open spec fn positive_amount_outcome(amount: i128) -> Result<(), Error> {
    if amount > 0 {
        Ok(())
    } else {
        Err(Error::InvalidAmount)
    }
}

/// What [`require_non_negative_amount`] answers.
pub open spec fn non_negative_amount_outcome(amount: i128) -> Result<(), Error> {
    if amount >= 0 {
        Ok(())
    } else {
        Err(Error::InvalidAmount)
    }
}

/// Requires a strictly positive amount (typical for transfers and deposits).
pub fn require_positive_amount(amount: i128) -> (r: Result<(), Error>)
    ensures
        r == positive_amount_outcome(amount),
{
    if amount <= 0 {
        return Err(Error::InvalidAmount);
    }
    Ok(())
}

/// Requires an amount that is not negative (zero is fine, as for a zero-limit
/// budget).
pub fn require_non_negative_amount(amount: i128) -> (r: Result<(), Error>)
    ensures
        r == non_negative_amount_outcome(amount),
{
    if amount < 0 {
        return Err(Error::InvalidAmount);
    }
    Ok(())
}

/// A text of the contract environment.
#[verifier::external_type_specification]
#[verifier::external_body]
pub struct ExString(soroban_sdk::String);

/// The bytes of a text.
pub uninterp spec fn text_bytes(text: soroban_sdk::String) -> Seq<u8>;

/// Calls `soroban_sdk::String::is_empty`: whether the text has no bytes.
#[verifier::external_body]
fn text_is_empty(text: &soroban_sdk::String) -> (r: bool)
    ensures
        r == (text_bytes(*text).len() == 0),
{
    text.is_empty()
}

/// Requires a text that is not empty (names, ids, organization slugs).
pub fn require_non_empty(value: &soroban_sdk::String) -> (r: Result<(), Error>)
    ensures
        r == (if text_bytes(*value).len() > 0 {
            Ok(())
        } else {
            Err(Error::InvalidInput)
        }),
{
    if text_is_empty(value) {
        return Err(Error::InvalidInput);
    }
    Ok(())
}

/// What [`require_not_expired`] answers at the time `now`.
pub open spec fn not_expired_outcome(now: u64, expiry: u64) -> Result<(), Error> {
    if now < expiry {
        Ok(())
    } else {
        Err(Error::ProposalExpired)
    }
}

/// Requires that `expiry`, in seconds since the Unix epoch, is still in the
/// future of the ledger.
pub fn require_not_expired(env: &Ledger, expiry: u64) -> (r: Result<(), Error>)
    ensures
        r == not_expired_outcome(env.timestamp, expiry),
{
    if env.timestamp >= expiry {
        return Err(Error::ProposalExpired);
    }
    Ok(())
}

/// What [`require_time_reached`] answers at the time `now`.
pub open spec fn time_reached_outcome(now: u64, unlock_at: u64) -> Result<(), Error> {
    if unlock_at <= now {
        Ok(())
    } else {
        Err(Error::TimeLocked)
    }
}

/// Requires that the ledger has reached `unlock_at` (time locks).
pub fn require_time_reached(env: &Ledger, unlock_at: u64) -> (r: Result<(), Error>)
    ensures
        r == time_reached_outcome(env.timestamp, unlock_at),
{
    if env.timestamp < unlock_at {
        return Err(Error::TimeLocked);
    }
    Ok(())
}

/// What [`require_within_amount_bounds`] answers.
pub open spec fn amount_bounds_outcome(value: i128, min: i128, max: i128) -> Result<(), Error> {
    if min <= value && (max == 0 || value <= max) {
        Ok(())
    } else {
        Err(Error::PolicyDenied)
    }
}

/// Requires that `value` lies in the inclusive window from `min` to `max`. A
/// `max` of zero stands for no upper bound.
pub fn require_within_amount_bounds(value: i128, min: i128, max: i128) -> (r: Result<(), Error>)
    ensures
        r == amount_bounds_outcome(value, min, max),
{
    if value < min {
        return Err(Error::PolicyDenied);
    }
    if max != 0 && value > max {
        return Err(Error::PolicyDenied);
    }
    Ok(())
}

/// When the guards on amounts give which answer, for every amount: the positive
/// ones start at one, the ones that are not negative at zero.
pub proof fn law_amounts(amount: i128)
    ensures
        1 <= amount ==> positive_amount_outcome(amount) == Ok::<(), Error>(()),
        amount < 1 ==> positive_amount_outcome(amount) == Err::<(), Error>(Error::InvalidAmount),
        0 <= amount ==> non_negative_amount_outcome(amount) == Ok::<(), Error>(()),
        amount < 0 ==> non_negative_amount_outcome(amount) == Err::<(), Error>(
            Error::InvalidAmount,
        ),
{
}

/// When the guards on time give which answer, at every time: what is due later
/// than now has not expired and is still locked, anything else has expired and
/// is no longer locked.
pub proof fn law_moments(now: u64, moment: u64)
    ensures
        moment - now > 0 ==> {
            &&& not_expired_outcome(now, moment) == Ok::<(), Error>(())
            &&& time_reached_outcome(now, moment) == Err::<(), Error>(Error::TimeLocked)
        },
        moment - now <= 0 ==> {
            &&& not_expired_outcome(now, moment) == Err::<(), Error>(Error::ProposalExpired)
            &&& time_reached_outcome(now, moment) == Ok::<(), Error>(())
        },
{
}

/// When the guard on bounds gives which answer, for every window: a value is
/// denied below the lower bound, and above the upper one unless that is zero.
pub proof fn law_amount_bounds(value: i128, min: i128, max: i128)
    ensures
        value - min < 0 ==> amount_bounds_outcome(value, min, max) == Err::<(), Error>(
            Error::PolicyDenied,
        ),
        max != 0 && value - max > 0 ==> amount_bounds_outcome(value, min, max) == Err::<(), Error>(
            Error::PolicyDenied,
        ),
        value - min >= 0 && (max == 0 || value - max <= 0) ==> amount_bounds_outcome(
            value,
            min,
            max,
        ) == Ok::<(), Error>(()),
{
}

/// The amounts that are positive are those that are not negative, but for zero.
pub proof fn law_positive_amounts(amount: i128)
    ensures
        positive_amount_outcome(amount) is Ok <==> non_negative_amount_outcome(amount) is Ok
            && amount != 0,
{
}

/// A moment is either still to come, so that nothing due at it has expired, or
/// reached, so that nothing due at it is locked: never both, never neither.
pub proof fn law_expired_or_locked(now: u64, moment: u64)
    ensures
        not_expired_outcome(now, moment) is Ok <==> time_reached_outcome(now, moment) is Err,
{
}

/// As time goes on, what has expired stays expired and what has been unlocked
/// stays unlocked.
pub proof fn law_time_is_one_way(now: u64, later: u64, moment: u64)
    requires
        now <= later,
    ensures
        not_expired_outcome(now, moment) is Err ==> not_expired_outcome(later, moment) is Err,
        time_reached_outcome(now, moment) is Ok ==> time_reached_outcome(later, moment) is Ok,
{
}

/// Without an upper bound, every value from the lower one on is within bounds.
pub proof fn law_zero_bound_is_no_bound(value: i128, min: i128)
    ensures
        amount_bounds_outcome(value, min, 0) is Ok <==> min <= value,
{
}

} // verus!
