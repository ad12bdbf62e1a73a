//! The error codes shared by every contract.

use vstd::prelude::*;

verus! {

/// Why a request was refused.
#[derive(Clone, Copy, Debug, PartialEq, Eq, Structural)]
pub enum Error {
    /// The contract is already set up.
    AlreadyInitialized,
    /// The contract is not set up yet.
    NotInitialized,
    /// An argument is malformed: an empty text, an empty or oversized signer
    /// set, or one that names a signer twice.
    InvalidInput,
    /// What is to be added is already there.
    AlreadyExists,
    /// No record under that id.
    NotFound,
    /// An amount is out of range for its use.
    InvalidAmount,
    /// The address is not in the signer set.
    NotASigner,
    /// The signer set is at capacity.
    TooManySigners,
    /// The threshold and the signer set do not fit together.
    InvalidThreshold,
    /// The proposal has too few approvals.
    ThresholdNotMet,
    /// The signer approved the proposal before.
    AlreadySigned,
    /// The proposal was executed before.
    InvalidProposalState,
    /// The deadline has passed.
    ProposalExpired,
    /// The time lock has not elapsed.
    TimeLocked,
    /// The contract is locked for an emergency.
    EmergencyLock,
    /// A policy limit is violated.
    PolicyDenied,
    /// A counter is at its largest value.
    Overflow,
}

} // verus!
