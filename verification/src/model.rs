//! What every request answers and leaves behind.
//!
//! For each request there are two functions of the ledger before it: the
//! outcome that the caller gets, and the ledger afterwards. Checks are made in
//! a fixed order, and the first one that fails decides.

use crate::address_list::Address;
use crate::constants::{
    INSTANCE_BUMP_AMOUNT, INSTANCE_LIFETIME_THRESHOLD, MAX_SIGNERS, MIN_THRESHOLD,
    PERSISTENT_BUMP_AMOUNT, PERSISTENT_LIFETIME_THRESHOLD,
};
use crate::errors::Error;
use crate::ledger::{Effect, Event, MsProposal};
use vstd::prelude::*;

verus! {

/// The mathematical content of a ledger.
#[verifier::ext_equal]
pub struct LedgerView {
    pub signers: Option<Seq<Address>>,
    pub threshold: Option<u32>,
    pub emergency_lock: Option<bool>,
    pub proposal_count: Option<u64>,
    pub proposals: Map<u64, MsProposal>,
    pub approvals: Set<(u64, Address)>,
    pub timestamp: u64,
    pub effects: Seq<Effect>,
}

/// The extension of the contract configuration's lifetime.
pub open spec fn instance_extension() -> Effect {
    Effect::ExtendInstance {
        threshold: INSTANCE_LIFETIME_THRESHOLD,
        extend_to: INSTANCE_BUMP_AMOUNT,
    }
}

/// The extension of a proposal record's lifetime.
pub open spec fn proposal_extension(id: u64) -> Effect {
    Effect::ExtendProposal {
        id,
        threshold: PERSISTENT_LIFETIME_THRESHOLD,
        extend_to: PERSISTENT_BUMP_AMOUNT,
    }
}

/// Whether a threshold fits a set of `n` signers.
pub open spec fn threshold_fits(threshold: u32, n: nat) -> bool {
    MIN_THRESHOLD <= threshold <= n
}

impl LedgerView {
    /// The ledger of a contract that has not been set up.
    pub open spec fn blank(timestamp: u64) -> LedgerView {
        LedgerView {
            signers: None,
            threshold: None,
            emergency_lock: None,
            proposal_count: None,
            proposals: Map::empty(),
            approvals: Set::empty(),
            timestamp,
            effects: Seq::empty(),
        }
    }

    /// Whether the emergency lock is on.
    pub open spec fn locked(self) -> bool {
        self.emergency_lock == Some(true)
    }

    /// Whether the address is in the signer set.
    pub open spec fn has_signer(self, who: Address) -> bool {
        self.signers is Some && self.signers->0.contains(who)
    }

    /// The ledger after the host has been asked for something more.
    pub open spec fn asking(self, effects: Seq<Effect>) -> LedgerView {
        LedgerView { effects: self.effects + effects, ..self }
    }

    /// The ledger after the authorization of `who` has been asked for.
    pub open spec fn asking_auth(self, who: Address) -> LedgerView {
        self.asking(seq![Effect::RequireAuth { who }])
    }

    /// Whether `who` may act as a signer.
    pub open spec fn signer_outcome(self, who: Address) -> Result<(), Error> {
        if self.signers is None {
            Err(Error::NotInitialized)
        } else if !self.has_signer(who) {
            Err(Error::NotASigner)
        } else {
            Ok(())
        }
    }

    // Setting up.

    /// What `initialize` answers: it works once, for one to `MAX_SIGNERS`
    /// different signers and a threshold that they can reach.
    pub open spec fn initialize_outcome(self, signers: Seq<Address>, threshold: u32) -> Result<
        (),
        Error,
    > {
        if self.threshold is Some {
            Err(Error::AlreadyInitialized)
        } else if !(0 < signers.len() <= MAX_SIGNERS) {
            Err(Error::InvalidInput)
        } else if !threshold_fits(threshold, signers.len()) {
            Err(Error::InvalidThreshold)
        } else if !signers.no_duplicates() {
            Err(Error::InvalidInput)
        } else {
            Ok(())
        }
    }

    /// The ledger after `initialize`.
    pub open spec fn after_initialize(self, signers: Seq<Address>, threshold: u32) -> LedgerView {
        if self.initialize_outcome(signers, threshold) is Ok {
            LedgerView {
                signers: Some(signers),
                threshold: Some(threshold),
                emergency_lock: Some(false),
                proposal_count: Some(0),
                ..self
            }.asking(seq![instance_extension()])
        } else {
            self
        }
    }

    // Governance.

    /// What `add_signer` answers: a signer adds one that is new, while there is
    /// room.
    pub open spec fn add_signer_outcome(self, caller: Address, signer: Address) -> Result<
        (),
        Error,
    > {
        if self.signer_outcome(caller) is Err {
            self.signer_outcome(caller)
        } else if self.has_signer(signer) {
            Err(Error::AlreadyExists)
        } else if self.signers->0.len() >= MAX_SIGNERS {
            Err(Error::TooManySigners)
        } else {
            Ok(())
        }
    }

    /// The ledger after `add_signer`: the new signer comes last.
    pub open spec fn after_add_signer(self, caller: Address, signer: Address) -> LedgerView {
        let asked = self.asking_auth(caller);
        if self.add_signer_outcome(caller, signer) is Ok {
            LedgerView { signers: Some(self.signers->0.push(signer)), ..asked }.asking(
                seq![
                    instance_extension(),
                    Effect::Publish { event: Event::SignerAdded { signer } },
                ],
            )
        } else {
            asked
        }
    }

    /// What `remove_signer` answers: a signer removes one, unless fewer would be
    /// left than the threshold asks for.
    pub open spec fn remove_signer_outcome(self, caller: Address, signer: Address) -> Result<
        (),
        Error,
    > {
        if self.signer_outcome(caller) is Err {
            self.signer_outcome(caller)
        } else if self.threshold is None {
            Err(Error::NotInitialized)
        } else if !self.has_signer(signer) {
            Err(Error::NotASigner)
        } else if self.signers->0.len() - 1 < self.threshold->0 {
            Err(Error::InvalidThreshold)
        } else {
            Ok(())
        }
    }

    /// The ledger after `remove_signer`: the others keep their order.
    pub open spec fn after_remove_signer(self, caller: Address, signer: Address) -> LedgerView {
        let asked = self.asking_auth(caller);
        if self.remove_signer_outcome(caller, signer) is Ok {
            LedgerView { signers: Some(self.signers->0.remove_value(signer)), ..asked }.asking(
                seq![
                    instance_extension(),
                    Effect::Publish { event: Event::SignerRemoved { signer } },
                ],
            )
        } else {
            asked
        }
    }

    /// What `set_threshold` answers: a signer sets a threshold that the signers
    /// can reach.
    pub open spec fn set_threshold_outcome(self, caller: Address, threshold: u32) -> Result<
        (),
        Error,
    > {
        if self.signer_outcome(caller) is Err {
            self.signer_outcome(caller)
        } else if !threshold_fits(threshold, self.signers->0.len()) {
            Err(Error::InvalidThreshold)
        } else {
            Ok(())
        }
    }

    /// The ledger after `set_threshold`.
    pub open spec fn after_set_threshold(self, caller: Address, threshold: u32) -> LedgerView {
        let asked = self.asking_auth(caller);
        if self.set_threshold_outcome(caller, threshold) is Ok {
            LedgerView { threshold: Some(threshold), ..asked }.asking(
                seq![
                    instance_extension(),
                    Effect::Publish { event: Event::ThresholdChanged { threshold } },
                ],
            )
        } else {
            asked
        }
    }

    /// The ledger after `set_emergency_lock`, which is refused only to those who
    /// may not act as a signer.
    pub open spec fn after_set_emergency_lock(self, caller: Address, locked: bool) -> LedgerView {
        let asked = self.asking_auth(caller);
        if self.signer_outcome(caller) is Ok {
            LedgerView { emergency_lock: Some(locked), ..asked }.asking(
                seq![
                    instance_extension(),
                    Effect::Publish { event: Event::EmergencyLock { locked } },
                ],
            )
        } else {
            asked
        }
    }

    // Proposals.

    /// What `propose` answers: unless the lock is on, a signer gets the next id,
    /// as long as there is one.
    pub open spec fn propose_outcome(self, proposer: Address) -> Result<u64, Error> {
        if self.locked() {
            Err(Error::EmergencyLock)
        } else {
            match self.signer_outcome(proposer) {
                Err(e) => Err(e),
                Ok(_) => match self.proposal_count {
                    None => Err(Error::NotInitialized),
                    Some(count) => if count == u64::MAX {
                        Err(Error::Overflow)
                    } else {
                        Ok((count + 1) as u64)
                    },
                },
            }
        }
    }

    /// The ledger after `propose`. The lock is looked at before anything is
    /// asked of the host.
    pub open spec fn after_propose(
        self,
        proposer: Address,
        action: soroban_sdk::Symbol,
        payload: soroban_sdk::Bytes,
        unlock_at: u64,
    ) -> LedgerView {
        let asked = self.asking_auth(proposer);
        match self.propose_outcome(proposer) {
            Err(Error::EmergencyLock) => self,
            Err(_) => asked,
            Ok(id) => LedgerView {
                proposals: self.proposals.insert(
                    id,
                    MsProposal {
                        proposer,
                        action,
                        payload,
                        approvals: 1,
                        executed: false,
                        unlock_at,
                    },
                ),
                approvals: self.approvals.insert((id, proposer)),
                proposal_count: Some(id),
                ..asked
            }.asking(
                seq![
                    proposal_extension(id),
                    instance_extension(),
                    Effect::Publish { event: Event::ProposalCreated { id, proposer } },
                ],
            ),
        }
    }

    /// What `approve` answers: unless the lock is on, a signer approves a
    /// proposal that is not executed, once, and gets the new count.
    pub open spec fn approve_outcome(self, caller: Address, id: u64) -> Result<u32, Error> {
        if self.locked() {
            Err(Error::EmergencyLock)
        } else {
            match self.signer_outcome(caller) {
                Err(e) => Err(e),
                Ok(_) => if !self.proposals.contains_key(id) {
                    Err(Error::NotFound)
                } else if self.proposals[id].executed {
                    Err(Error::InvalidProposalState)
                } else if self.approvals.contains((id, caller)) {
                    Err(Error::AlreadySigned)
                } else if self.proposals[id].approvals == u32::MAX {
                    Err(Error::Overflow)
                } else {
                    Ok((self.proposals[id].approvals + 1) as u32)
                },
            }
        }
    }

    /// The ledger after `approve`.
    pub open spec fn after_approve(self, caller: Address, id: u64) -> LedgerView {
        let asked = self.asking_auth(caller);
        match self.approve_outcome(caller, id) {
            Err(Error::EmergencyLock) => self,
            Err(_) => asked,
            Ok(approvals) => LedgerView {
                proposals: self.proposals.insert(
                    id,
                    MsProposal { approvals, ..self.proposals[id] },
                ),
                approvals: self.approvals.insert((id, caller)),
                ..asked
            }.asking(
                seq![
                    proposal_extension(id),
                    Effect::Publish {
                        event: Event::ProposalApproved { id, signer: caller, approvals },
                    },
                ],
            ),
        }
    }

    /// What `execute` answers: unless the lock is on, a signer executes a
    /// proposal once, when it has the approvals that the threshold asks for and
    /// its time lock has elapsed.
    pub open spec fn execute_outcome(self, caller: Address, id: u64) -> Result<(), Error> {
        if self.locked() {
            Err(Error::EmergencyLock)
        } else if self.signer_outcome(caller) is Err {
            self.signer_outcome(caller)
        } else if !self.proposals.contains_key(id) {
            Err(Error::NotFound)
        } else if self.proposals[id].executed {
            Err(Error::InvalidProposalState)
        } else if self.threshold is None {
            Err(Error::NotInitialized)
        } else if self.proposals[id].approvals < self.threshold->0 {
            Err(Error::ThresholdNotMet)
        } else if self.timestamp < self.proposals[id].unlock_at {
            Err(Error::TimeLocked)
        } else {
            Ok(())
        }
    }

    /// The ledger after `execute`.
    pub open spec fn after_execute(self, caller: Address, id: u64) -> LedgerView {
        let asked = self.asking_auth(caller);
        match self.execute_outcome(caller, id) {
            Err(Error::EmergencyLock) => self,
            Err(_) => asked,
            Ok(_) => LedgerView {
                proposals: self.proposals.insert(
                    id,
                    MsProposal { executed: true, ..self.proposals[id] },
                ),
                ..asked
            }.asking(
                seq![
                    proposal_extension(id),
                    Effect::Publish { event: Event::ProposalExecuted { id } },
                ],
            ),
        }
    }
}

} // verus!
