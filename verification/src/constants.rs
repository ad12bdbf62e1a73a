//! Protocol-wide limits and storage lifetimes. Lifetimes count ledgers.

use vstd::prelude::*;

verus! {

/// The most signers that a multisig can have.
pub const MAX_SIGNERS: u32 = 20;

/// The least number of approvals that a threshold can ask for.
pub const MIN_THRESHOLD: u32 = 1;

/// Contract configuration is extended once it would live for less than this.
pub const INSTANCE_LIFETIME_THRESHOLD: u32 = 103_680;

/// How long extended contract configuration lives.
pub const INSTANCE_BUMP_AMOUNT: u32 = 120_960;

/// A record is extended once it would live for less than this.
pub const PERSISTENT_LIFETIME_THRESHOLD: u32 = 501_120;

/// How long an extended record lives.
pub const PERSISTENT_BUMP_AMOUNT: u32 = 518_400;

} // verus!
