//! The multisig contract: the requests that it answers.
//!
//! Unilateral spending is prevented by requiring N of M signer approvals before
//! an action executes. Governance (`add_signer`, `remove_signer`,
//! `set_threshold`, `set_emergency_lock`) is open to every current signer.

use crate::address_list::{Address, AddressList};
use crate::constants::{
    INSTANCE_BUMP_AMOUNT, INSTANCE_LIFETIME_THRESHOLD, MAX_SIGNERS, MIN_THRESHOLD,
    PERSISTENT_BUMP_AMOUNT, PERSISTENT_LIFETIME_THRESHOLD,
};
use crate::errors::Error;
use crate::ledger::{Effect, Event, Ledger, MsProposal};
use crate::model::{instance_extension, proposal_extension, threshold_fits, LedgerView};
use crate::validation::require_time_reached;
use vstd::prelude::*;

verus! {

/// The multisig contract.
pub struct MultiSigContract;

impl MultiSigContract {
    /// Sets up the contract with its first signers and its threshold. The
    /// threshold is at least `MIN_THRESHOLD` and at most the number of signers;
    /// there is at least one signer, at most `MAX_SIGNERS`, and none twice.
    pub fn initialize(env: &mut Ledger, signers: AddressList, threshold: u32) -> (r: Result<
        (),
        Error,
    >)
        ensures
            r == old(env)@.initialize_outcome(signers@, threshold),
            final(env)@ == old(env)@.after_initialize(signers@, threshold),
    {
        if env.threshold.is_some() {
            return Err(Error::AlreadyInitialized);
        }
        let n: u32 = signers.len();
        if n == 0 || n > MAX_SIGNERS {
            return Err(Error::InvalidInput);
        }
        Self::validate_threshold(threshold, n)?;
        Self::assert_unique(&signers)?;

        env.signers = Some(signers);
        env.threshold = Some(threshold);
        env.emergency_lock = Some(false);
        env.proposal_count = Some(0);
        Self::bump_instance(env);
        Ok(())
    }

    /// Adds a signer on behalf of a current one. A signer is added once, and
    /// only while there are fewer than `MAX_SIGNERS`.
    pub fn add_signer(env: &mut Ledger, caller: Address, signer: Address) -> (r: Result<(), Error>)
        ensures
            r == old(env)@.add_signer_outcome(caller, signer),
            final(env)@ == old(env)@.after_add_signer(caller, signer),
    {
        Self::require_signer(env, caller)?;
        let signers = Self::signers(env)?;
        if signers.contains(&signer) {
            return Err(Error::AlreadyExists);
        }
        if signers.len() >= MAX_SIGNERS {
            return Err(Error::TooManySigners);
        }
        if let Some(list) = &mut env.signers {
            list.push_back(signer);
        }
        Self::bump_instance(env);
        Self::publish(env, Event::SignerAdded { signer });
        Ok(())
    }

    /// Removes a signer on behalf of a current one. As many signers stay as the
    /// threshold asks for, so that the multisig never becomes unusable.
    pub fn remove_signer(env: &mut Ledger, caller: Address, signer: Address) -> (r: Result<
        (),
        Error,
    >)
        ensures
            r == old(env)@.remove_signer_outcome(caller, signer),
            final(env)@ == old(env)@.after_remove_signer(caller, signer),
    {
        Self::require_signer(env, caller)?;
        let signers = Self::signers(env)?;
        let threshold: u32 = Self::threshold(env)?;
        let idx: u32 = signers.first_index_of(&signer).ok_or(Error::NotASigner)?;
        if signers.len() - 1 < threshold {
            return Err(Error::InvalidThreshold);
        }
        proof {
            signers@.index_of_first_ensures(signer);
        }
        if let Some(list) = &mut env.signers {
            let _ = list.remove(idx);
        }
        Self::bump_instance(env);
        Self::publish(env, Event::SignerRemoved { signer });
        Ok(())
    }

    /// Changes the threshold on behalf of a current signer. The threshold is at
    /// least `MIN_THRESHOLD` and at most the number of signers.
    pub fn set_threshold(env: &mut Ledger, caller: Address, threshold: u32) -> (r: Result<
        (),
        Error,
    >)
        ensures
            r == old(env)@.set_threshold_outcome(caller, threshold),
            final(env)@ == old(env)@.after_set_threshold(caller, threshold),
    {
        Self::require_signer(env, caller)?;
        let signers = Self::signers(env)?;
        Self::validate_threshold(threshold, signers.len())?;
        env.threshold = Some(threshold);
        Self::bump_instance(env);
        Self::publish(env, Event::ThresholdChanged { threshold });
        Ok(())
    }

    /// Switches the emergency lock on behalf of a current signer. While it is
    /// on, proposals cannot be made, approved or executed.
    pub fn set_emergency_lock(env: &mut Ledger, caller: Address, locked: bool) -> (r: Result<
        (),
        Error,
    >)
        ensures
            r == old(env)@.signer_outcome(caller),
            final(env)@ == old(env)@.after_set_emergency_lock(caller, locked),
    {
        Self::require_signer(env, caller)?;
        env.emergency_lock = Some(locked);
        Self::bump_instance(env);
        Self::publish(env, Event::EmergencyLock { locked });
        Ok(())
    }

    /// Makes a proposal on behalf of a signer, whose approval is counted at
    /// once. `unlock_at` sets a time lock; zero sets none. Ids count up from one
    /// and are never given twice.
    pub fn propose(
        env: &mut Ledger,
        proposer: Address,
        action: soroban_sdk::Symbol,
        payload: soroban_sdk::Bytes,
        unlock_at: u64,
    ) -> (r: Result<u64, Error>)
        ensures
            r == old(env)@.propose_outcome(proposer),
            final(env)@ == old(env)@.after_propose(proposer, action, payload, unlock_at),
    {
        Self::require_not_locked(env)?;
        Self::require_signer(env, proposer)?;

        let count: u64 = env.proposal_count.ok_or(Error::NotInitialized)?;
        let id: u64 = count.checked_add(1).ok_or(Error::Overflow)?;

        let proposal = MsProposal {
            proposer,
            action,
            payload,
            approvals: 1,
            executed: false,
            unlock_at,
        };
        env.proposals.insert(id, proposal);
        Self::record_approval(env, id, proposer);
        Self::bump_proposal(env, id);
        env.proposal_count = Some(id);
        Self::bump_instance(env);

        Self::publish(env, Event::ProposalCreated { id, proposer });
        Ok(id)
    }

    /// Approves a proposal on behalf of a signer, once for each signer. The
    /// answer is the number of approvals so far.
    pub fn approve(env: &mut Ledger, caller: Address, proposal_id: u64) -> (r: Result<u32, Error>)
        ensures
            r == old(env)@.approve_outcome(caller, proposal_id),
            final(env)@ == old(env)@.after_approve(caller, proposal_id),
    {
        Self::require_not_locked(env)?;
        Self::require_signer(env, caller)?;
        let proposal = Self::load_proposal(env, proposal_id)?;
        if proposal.executed {
            return Err(Error::InvalidProposalState);
        }
        if env.has_approved(proposal_id, caller) {
            return Err(Error::AlreadySigned);
        }
        let approvals: u32 = proposal.approvals.checked_add(1).ok_or(Error::Overflow)?;
        Self::record_approval(env, proposal_id, caller);
        if let Some(mut proposal) = env.proposals.remove(&proposal_id) {
            proposal.approvals = approvals;
            env.proposals.insert(proposal_id, proposal);
        }
        Self::bump_proposal(env, proposal_id);
        Self::publish(
            env,
            Event::ProposalApproved { id: proposal_id, signer: caller, approvals },
        );
        Ok(approvals)
    }

    /// Executes a proposal on behalf of a signer, once it has as many approvals
    /// as the threshold asks for and its time lock has elapsed.
    pub fn execute(env: &mut Ledger, caller: Address, proposal_id: u64) -> (r: Result<(), Error>)
        ensures
            r == old(env)@.execute_outcome(caller, proposal_id),
            final(env)@ == old(env)@.after_execute(caller, proposal_id),
    {
        Self::require_not_locked(env)?;
        Self::require_signer(env, caller)?;
        let proposal = Self::load_proposal(env, proposal_id)?;
        if proposal.executed {
            return Err(Error::InvalidProposalState);
        }
        let threshold: u32 = Self::threshold(env)?;
        if proposal.approvals < threshold {
            return Err(Error::ThresholdNotMet);
        }
        if proposal.unlock_at != 0 {
            require_time_reached(env, proposal.unlock_at)?;
        }
        if let Some(mut proposal) = env.proposals.remove(&proposal_id) {
            proposal.executed = true;
            env.proposals.insert(proposal_id, proposal);
        }
        Self::bump_proposal(env, proposal_id);
        Self::publish(env, Event::ProposalExecuted { id: proposal_id });
        Ok(())
    }

    /// The proposal under an id.
    pub fn get_proposal(env: &Ledger, proposal_id: u64) -> (r: Result<&MsProposal, Error>)
        ensures
            match r {
                Ok(p) => env@.proposals.contains_key(proposal_id) && *p
                    == env@.proposals[proposal_id],
                Err(e) => !env@.proposals.contains_key(proposal_id) && e == Error::NotFound,
            },
    {
        Self::load_proposal(env, proposal_id)
    }

    /// The current signers.
    pub fn get_signers(env: &Ledger) -> (r: Result<&AddressList, Error>)
        ensures
            match r {
                Ok(list) => env@.signers == Some(list@),
                Err(e) => env@.signers is None && e == Error::NotInitialized,
            },
    {
        Self::signers(env)
    }

    /// The current threshold.
    pub fn get_threshold(env: &Ledger) -> (r: Result<u32, Error>)
        ensures
            r == (match env@.threshold {
                Some(threshold) => Ok(threshold),
                None => Err(Error::NotInitialized),
            }),
    {
        Self::threshold(env)
    }

    /// Whether the address is a current signer.
    pub fn is_signer(env: &Ledger, who: Address) -> (r: bool)
        ensures
            r == env@.has_signer(who),
    {
        match Self::signers(env) {
            Ok(signers) => signers.contains(&who),
            Err(_) => false,
        }
    }

    /// Whether the emergency lock is on.
    pub fn is_locked(env: &Ledger) -> (r: bool)
        ensures
            r == env@.locked(),
    {
        env.emergency_lock.unwrap_or(false)
    }

    fn signers(env: &Ledger) -> (r: Result<&AddressList, Error>)
        ensures
            match r {
                Ok(list) => env.signers == Some(*list),
                Err(e) => env.signers is None && e == Error::NotInitialized,
            },
    {
        env.signers.as_ref().ok_or(Error::NotInitialized)
    }

    fn threshold(env: &Ledger) -> (r: Result<u32, Error>)
        ensures
            r == (match env.threshold {
                Some(threshold) => Ok(threshold),
                None => Err(Error::NotInitialized),
            }),
    {
        env.threshold.ok_or(Error::NotInitialized)
    }

    fn load_proposal(env: &Ledger, id: u64) -> (r: Result<&MsProposal, Error>)
        ensures
            match r {
                Ok(p) => env@.proposals.contains_key(id) && *p == env@.proposals[id],
                Err(e) => !env@.proposals.contains_key(id) && e == Error::NotFound,
            },
    {
        env.proposals.get(&id).ok_or(Error::NotFound)
    }

    /// Asks for the authorization of `caller`, which has to be a signer.
    fn require_signer(env: &mut Ledger, caller: Address) -> (r: Result<(), Error>)
        ensures
            r == old(env)@.signer_outcome(caller),
            final(env)@ == old(env)@.asking_auth(caller),
    {
        env.effects.push(Effect::RequireAuth { who: caller });
        assert(env@ =~= old(env)@.asking_auth(caller));
        let signers = Self::signers(env)?;
        if !signers.contains(&caller) {
            return Err(Error::NotASigner);
        }
        Ok(())
    }

    fn require_not_locked(env: &Ledger) -> (r: Result<(), Error>)
        ensures
            r == (if env@.locked() {
                Err(Error::EmergencyLock)
            } else {
                Ok(())
            }),
    {
        let locked: bool = env.emergency_lock.unwrap_or(false);
        if locked {
            return Err(Error::EmergencyLock);
        }
        Ok(())
    }

    fn validate_threshold(threshold: u32, n: u32) -> (r: Result<(), Error>)
        ensures
            r == (if threshold_fits(threshold, n as nat) {
                Ok(())
            } else {
                Err(Error::InvalidThreshold)
            }),
    {
        if threshold < MIN_THRESHOLD || threshold > n {
            return Err(Error::InvalidThreshold);
        }
        Ok(())
    }

    fn assert_unique(signers: &AddressList) -> (r: Result<(), Error>)
        ensures
            r == (if signers@.no_duplicates() {
                Ok(())
            } else {
                Err(Error::InvalidInput)
            }),
    {
        let len: u32 = signers.len();
        let mut i: u32 = 0;
        while i < len
            invariant
                i <= len == signers@.len(),
                forall|p: int, q: int| 0 <= p < i && p < q < len ==> signers@[p] != signers@[q],
            decreases len - i,
        {
            let a = signers.get(i).unwrap();
            let mut j: u32 = i + 1;
            while j < len
                invariant
                    i < j <= len == signers@.len(),
                    a == signers@[i as int],
                    forall|q: int| i < q < j ==> signers@[i as int] != signers@[q],
                decreases len - j,
            {
                let b = signers.get(j).unwrap();
                if a.0 == b.0 && a.1 == b.1 && a.2 == b.2 {
                    return Err(Error::InvalidInput);
                }
                j = j + 1;
            }
            i = i + 1;
        }
        Ok(())
    }

    fn record_approval(env: &mut Ledger, id: u64, who: Address)
        ensures
            final(env)@ == (LedgerView {
                approvals: old(env)@.approvals.insert((id, who)),
                ..old(env)@
            }),
    {
        env.approvals.push((id, who));
        proof {
            old(env).approvals@.lemma_push_to_set_commute((id, who));
        }
    }

    fn bump_proposal(env: &mut Ledger, id: u64)
        ensures
            final(env)@ == old(env)@.asking(seq![proposal_extension(id)]),
    {
        env.effects.push(
            Effect::ExtendProposal {
                id,
                threshold: PERSISTENT_LIFETIME_THRESHOLD,
                extend_to: PERSISTENT_BUMP_AMOUNT,
            },
        );
        assert(env@ =~= old(env)@.asking(seq![proposal_extension(id)]));
    }

    fn bump_instance(env: &mut Ledger)
        ensures
            final(env)@ == old(env)@.asking(seq![instance_extension()]),
    {
        env.effects.push(
            Effect::ExtendInstance {
                threshold: INSTANCE_LIFETIME_THRESHOLD,
                extend_to: INSTANCE_BUMP_AMOUNT,
            },
        );
        assert(env@ =~= old(env)@.asking(seq![instance_extension()]));
    }

    fn publish(env: &mut Ledger, event: Event)
        ensures
            final(env)@ == old(env)@.asking(seq![Effect::Publish { event }]),
    {
        env.effects.push(Effect::Publish { event });
        assert(env@ =~= old(env)@.asking(seq![Effect::Publish { event }]));
    }
}

} // verus!
