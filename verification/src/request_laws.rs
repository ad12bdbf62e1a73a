//! What each request is for, said of the stored fields alone.
//!
//! For every request one law says when each answer comes, if and only if, and
//! another one says what every stored field is afterwards and what the host has
//! been asked for.

use crate::address_list::Address;
use crate::constants::{
    INSTANCE_BUMP_AMOUNT, INSTANCE_LIFETIME_THRESHOLD, MAX_SIGNERS, PERSISTENT_BUMP_AMOUNT,
    PERSISTENT_LIFETIME_THRESHOLD,
};
use crate::errors::Error;
use crate::ledger::{Effect, Event, Ledger, MsProposal};
use crate::model::LedgerView;
use vstd::prelude::*;

verus! {

/// Whether an address is at some place of a sequence.
pub open spec fn is_listed(s: Seq<Address>, who: Address) -> bool {
    exists|i: int| 0 <= i < s.len() && s[i] == who
}

/// Whether the address is listed as a signer.
pub open spec fn may_act(v: LedgerView, who: Address) -> bool {
    v.signers is Some && is_listed(v.signers->0, who)
}

/// Whether two ledgers have the same signers and threshold.
pub open spec fn same_signers(v: LedgerView, w: LedgerView) -> bool {
    v.signers == w.signers && v.threshold == w.threshold
}

/// Whether two ledgers have the same proposals, approvals and counter.
pub open spec fn same_proposals(v: LedgerView, w: LedgerView) -> bool {
    &&& v.proposal_count == w.proposal_count
    &&& v.proposals == w.proposals
    &&& v.approvals == w.approvals
}

/// Whether two ledgers differ in nothing but what the host has been asked for.
pub open spec fn same_storage(v: LedgerView, w: LedgerView) -> bool {
    &&& same_signers(v, w)
    &&& v.emergency_lock == w.emergency_lock
    &&& same_proposals(v, w)
    &&& v.timestamp == w.timestamp
}

/// Whether between two ledgers no proposal but one, and no approval of another
/// one or by another address, has changed.
pub open spec fn same_but(v: LedgerView, w: LedgerView, id: u64, who: Address) -> bool {
    &&& forall|other: u64|
        other != id ==> (#[trigger] w.proposals.contains_key(other) <==> v.proposals.contains_key(
            other,
        ))
    &&& forall|other: u64|
        other != id && v.proposals.contains_key(other) ==> #[trigger] w.proposals[other]
            == v.proposals[other]
    &&& forall|other: u64, address: Address|
        other != id || address != who ==> (#[trigger] w.approvals.contains((other, address))
            <==> v.approvals.contains((other, address)))
}

/// Whether two ledgers differ in nothing but what the host has been asked for,
/// the later one having asked for one address's authorization in addition.
pub open spec fn only_asked_auth(v: LedgerView, w: LedgerView, who: Address) -> bool {
    same_storage(v, w) && w.effects == v.effects.push(Effect::RequireAuth { who })
}

/// What the host is asked for by a request that changes the configuration.
pub open spec fn config_effects(who: Address, event: Event) -> Seq<Effect> {
    seq![
        Effect::RequireAuth { who },
        Effect::ExtendInstance {
            threshold: INSTANCE_LIFETIME_THRESHOLD,
            extend_to: INSTANCE_BUMP_AMOUNT,
        },
        Effect::Publish { event },
    ]
}

/// What the host is asked for by a request that changes a proposal.
pub open spec fn proposal_effects(who: Address, id: u64, event: Event) -> Seq<Effect> {
    seq![
        Effect::RequireAuth { who },
        Effect::ExtendProposal {
            id,
            threshold: PERSISTENT_LIFETIME_THRESHOLD,
            extend_to: PERSISTENT_BUMP_AMOUNT,
        },
        Effect::Publish { event },
    ]
}

/// A ledger's content is what its fields hold; the approvals are a set.
pub proof fn law_ledger_content(ledger: Ledger, id: u64, who: Address)
    ensures
        ledger@.signers is Some <==> ledger.signers is Some,
        ledger.signers is Some ==> ledger@.signers->0 == ledger.signers->0@,
        ledger@.threshold == ledger.threshold,
        ledger@.emergency_lock == ledger.emergency_lock,
        ledger@.proposal_count == ledger.proposal_count,
        ledger@.proposals == ledger.proposals@,
        ledger@.approvals.contains((id, who)) <==> exists|i: int|
            0 <= i < ledger.approvals@.len() && ledger.approvals@[i] == (id, who),
        ledger@.timestamp == ledger.timestamp,
        ledger@.effects == ledger.effects@,
{
}

/// A new contract stores nothing and has asked for nothing.
pub proof fn law_blank_ledger(timestamp: u64)
    ensures
        ({
            let v = LedgerView::blank(timestamp);
            &&& v.signers is None
            &&& v.threshold is None
            &&& v.emergency_lock is None
            &&& v.proposal_count is None
            &&& forall|id: u64| !#[trigger] v.proposals.contains_key(id)
            &&& forall|entry: (u64, Address)| !#[trigger] v.approvals.contains(entry)
            &&& v.timestamp == timestamp
            &&& v.effects.len() == 0
        }),
{
}

/// The lock is on where it is stored as on, and nowhere else.
pub proof fn law_lock_is_stored(v: LedgerView)
    ensures
        v.locked() <==> v.emergency_lock is Some && v.emergency_lock->0,
{
}

/// Being a signer is being listed: an address is one, and may act as one,
/// exactly where it is at some place of the stored signers.
pub proof fn law_signer_is_listed(v: LedgerView, who: Address)
    ensures
        v.signers is None ==> !v.has_signer(who) && v.signer_outcome(who) == Err::<(), Error>(
            Error::NotInitialized,
        ),
        v.signers is Some ==> {
            let s = v.signers->0;
            let listed = exists|i: int| 0 <= i < s.len() && s[i] == who;
            &&& v.has_signer(who) <==> listed
            &&& v.signer_outcome(who) is Ok <==> listed
            &&& v.signer_outcome(who) == Err::<(), Error>(Error::NotASigner) <==> !listed
        },
{
}

/// When `initialize` gives which answer.
pub proof fn law_initialize_answers(v: LedgerView, signers: Seq<Address>, threshold: u32)
    ensures
        ({
            let r = v.initialize_outcome(signers, threshold);
            let fresh = v.threshold is None;
            let sized = 1 <= signers.len() <= MAX_SIGNERS;
            let reachable = 1 <= threshold <= signers.len();
            let twice = exists|i: int, j: int|
                0 <= i < j < signers.len() && signers[i] == signers[j];
            &&& r is Ok <==> fresh && sized && reachable && !twice
            &&& r == Err::<(), Error>(Error::AlreadyInitialized) <==> !fresh
            &&& r == Err::<(), Error>(Error::InvalidInput) <==> fresh && (!sized || (reachable
                && twice))
            &&& r == Err::<(), Error>(Error::InvalidThreshold) <==> fresh && sized && !reachable
        }),
{
}

/// A contract that `initialize` sets up has exactly what was given: those
/// signers in that order and that threshold, unlocked, with no proposal
/// counted. Otherwise nothing changes.
pub proof fn law_initialize_stores(v: LedgerView, signers: Seq<Address>, threshold: u32)
    ensures
        ({
            let w = v.after_initialize(signers, threshold);
            &&& v.initialize_outcome(signers, threshold) is Err ==> w == v
            &&& v.initialize_outcome(signers, threshold) is Ok ==> {
                &&& w.signers == Some(signers)
                &&& w.threshold == Some(threshold)
                &&& w.emergency_lock == Some(false)
                &&& w.proposal_count == Some(0u64)
                &&& w.proposals == v.proposals
                &&& w.approvals == v.approvals
                &&& w.timestamp == v.timestamp
                &&& w.effects == v.effects.push(
                    Effect::ExtendInstance {
                        threshold: INSTANCE_LIFETIME_THRESHOLD,
                        extend_to: INSTANCE_BUMP_AMOUNT,
                    },
                )
            }
        }),
{
    let w = v.after_initialize(signers, threshold);
    if v.initialize_outcome(signers, threshold) is Ok {
        assert(w.effects =~= v.effects.push(
            Effect::ExtendInstance {
                threshold: INSTANCE_LIFETIME_THRESHOLD,
                extend_to: INSTANCE_BUMP_AMOUNT,
            },
        ));
    }
}

/// When `add_signer` gives which answer.
pub proof fn law_add_signer_answers(v: LedgerView, caller: Address, signer: Address)
    ensures
        ({
            let r = v.add_signer_outcome(caller, signer);
            let acts = may_act(v, caller);
            let known = may_act(v, signer);
            let full = v.signers->0.len() >= MAX_SIGNERS;
            &&& r is Ok <==> acts && !known && !full
            &&& r == Err::<(), Error>(Error::NotInitialized) <==> v.signers is None
            &&& r == Err::<(), Error>(Error::NotASigner) <==> v.signers is Some && !acts
            &&& r == Err::<(), Error>(Error::AlreadyExists) <==> acts && known
            &&& r == Err::<(), Error>(Error::TooManySigners) <==> acts && !known && full
        }),
{
}

/// What `add_signer` adds is one place at the end of the signers, holding the
/// new one; nothing else in storage changes.
pub proof fn law_add_signer_stores(v: LedgerView, caller: Address, signer: Address)
    ensures
        ({
            let w = v.after_add_signer(caller, signer);
            let s = v.signers->0;
            let t = w.signers->0;
            &&& v.add_signer_outcome(caller, signer) is Err ==> only_asked_auth(v, w, caller)
            &&& v.add_signer_outcome(caller, signer) is Ok ==> {
                &&& w.signers is Some
                &&& t.len() == s.len() + 1
                &&& t[s.len() as int] == signer
                &&& forall|i: int| 0 <= i < s.len() ==> t[i] == s[i]
                &&& w.threshold == v.threshold
                &&& w.emergency_lock == v.emergency_lock
                &&& same_proposals(v, w)
                &&& w.timestamp == v.timestamp
                &&& w.effects == v.effects + config_effects(caller, Event::SignerAdded { signer })
            }
        }),
{
    let w = v.after_add_signer(caller, signer);
    if v.add_signer_outcome(caller, signer) is Ok {
        assert(w.effects =~= v.effects + config_effects(caller, Event::SignerAdded { signer }));
    } else {
        assert(w.effects =~= v.effects.push(Effect::RequireAuth { who: caller }));
    }
}

/// When `remove_signer` gives which answer. In particular a listed signer is
/// kept exactly where there are no more signers than the threshold asks for.
pub proof fn law_remove_signer_answers(v: LedgerView, caller: Address, signer: Address)
    ensures
        ({
            let r = v.remove_signer_outcome(caller, signer);
            let acts = may_act(v, caller);
            let known = may_act(v, signer);
            let set_up = v.threshold is Some;
            let spare = v.signers->0.len() > v.threshold->0;
            &&& r is Ok <==> acts && set_up && known && spare
            &&& r == Err::<(), Error>(Error::NotInitialized) <==> v.signers is None || (acts
                && !set_up)
            &&& r == Err::<(), Error>(Error::NotASigner) <==> v.signers is Some && (!acts || (set_up
                && !known))
            &&& r == Err::<(), Error>(Error::InvalidThreshold) <==> acts && set_up && known
                && !spare
        }),
{
}

/// What `remove_signer` removes is the first place of the signer; those behind
/// it move up by one, and nothing else in storage changes.
pub proof fn law_remove_signer_stores(v: LedgerView, caller: Address, signer: Address)
    ensures
        ({
            let w = v.after_remove_signer(caller, signer);
            let s = v.signers->0;
            let t = w.signers->0;
            &&& v.remove_signer_outcome(caller, signer) is Err ==> only_asked_auth(v, w, caller)
            &&& v.remove_signer_outcome(caller, signer) is Ok ==> {
                &&& w.signers is Some
                &&& t.len() == s.len() - 1
                &&& exists|i: int|
                    {
                        &&& 0 <= i < s.len()
                        &&& #[trigger] s[i] == signer
                        &&& forall|j: int| 0 <= j < i ==> s[j] != signer && t[j] == s[j]
                        &&& forall|j: int| i <= j < t.len() ==> t[j] == s[j + 1]
                    }
                &&& w.threshold == v.threshold
                &&& w.emergency_lock == v.emergency_lock
                &&& same_proposals(v, w)
                &&& w.timestamp == v.timestamp
                &&& w.effects == v.effects + config_effects(caller, Event::SignerRemoved { signer })
            }
        }),
{
    let w = v.after_remove_signer(caller, signer);
    if v.remove_signer_outcome(caller, signer) is Ok {
        let s = v.signers->0;
        s.index_of_first_ensures(signer);
        let i = s.index_of_first(signer)->0;
        assert(w.signers->0 == s.remove(i));
        assert(s[i] == signer);
        assert(w.effects =~= v.effects + config_effects(caller, Event::SignerRemoved { signer }));
    } else {
        assert(w.effects =~= v.effects.push(Effect::RequireAuth { who: caller }));
    }
}

/// When `set_threshold` gives which answer. In particular a signer can set every
/// threshold from one to the number of signers.
pub proof fn law_set_threshold_answers(v: LedgerView, caller: Address, threshold: u32)
    ensures
        ({
            let r = v.set_threshold_outcome(caller, threshold);
            let acts = may_act(v, caller);
            let reachable = 1 <= threshold <= v.signers->0.len();
            &&& r is Ok <==> acts && reachable
            &&& r == Err::<(), Error>(Error::NotInitialized) <==> v.signers is None
            &&& r == Err::<(), Error>(Error::NotASigner) <==> v.signers is Some && !acts
            &&& r == Err::<(), Error>(Error::InvalidThreshold) <==> acts && !reachable
        }),
{
}

/// What `set_threshold` stores is the threshold that was given, and nothing
/// else in storage changes.
pub proof fn law_set_threshold_stores(v: LedgerView, caller: Address, threshold: u32)
    ensures
        ({
            let w = v.after_set_threshold(caller, threshold);
            &&& v.set_threshold_outcome(caller, threshold) is Err ==> only_asked_auth(v, w, caller)
            &&& v.set_threshold_outcome(caller, threshold) is Ok ==> {
                &&& w.threshold == Some(threshold)
                &&& w.signers == v.signers
                &&& w.emergency_lock == v.emergency_lock
                &&& same_proposals(v, w)
                &&& w.timestamp == v.timestamp
                &&& w.effects == v.effects + config_effects(
                    caller,
                    Event::ThresholdChanged { threshold },
                )
            }
        }),
{
    let w = v.after_set_threshold(caller, threshold);
    if v.set_threshold_outcome(caller, threshold) is Ok {
        assert(w.effects =~= v.effects + config_effects(
            caller,
            Event::ThresholdChanged { threshold },
        ));
    } else {
        assert(w.effects =~= v.effects.push(Effect::RequireAuth { who: caller }));
    }
}

/// What `set_emergency_lock` stores, for every listed signer and for no other
/// address, is the state of the lock that was given, and nothing else in
/// storage changes.
pub proof fn law_set_emergency_lock_stores(v: LedgerView, caller: Address, locked: bool)
    ensures
        ({
            let w = v.after_set_emergency_lock(caller, locked);
            &&& !may_act(v, caller) ==> only_asked_auth(v, w, caller)
            &&& may_act(v, caller) ==> {
                &&& w.emergency_lock == Some(locked)
                &&& same_signers(v, w)
                &&& same_proposals(v, w)
                &&& w.timestamp == v.timestamp
                &&& w.effects == v.effects + config_effects(caller, Event::EmergencyLock { locked })
            }
        }),
{
    let w = v.after_set_emergency_lock(caller, locked);
    if may_act(v, caller) {
        assert(w.effects =~= v.effects + config_effects(caller, Event::EmergencyLock { locked }));
    } else {
        assert(w.effects =~= v.effects.push(Effect::RequireAuth { who: caller }));
    }
}

/// When `propose` gives which answer: to a listed signer, unless the lock is on,
/// one more than the count, at every time and whatever is stored beside.
pub proof fn law_propose_answers(v: LedgerView, proposer: Address)
    ensures
        ({
            let r = v.propose_outcome(proposer);
            let open = v.emergency_lock != Some(true);
            let acts = may_act(v, proposer);
            let counted = v.proposal_count is Some;
            let count = v.proposal_count->0;
            &&& r is Ok <==> open && acts && counted && count < u64::MAX
            &&& r is Ok ==> r->Ok_0 == count + 1
            &&& r == Err::<u64, Error>(Error::EmergencyLock) <==> !open
            &&& r == Err::<u64, Error>(Error::NotInitialized) <==> open && (v.signers is None || (
            acts && !counted))
            &&& r == Err::<u64, Error>(Error::NotASigner) <==> open && v.signers is Some && !acts
            &&& r == Err::<u64, Error>(Error::Overflow) <==> open && acts && counted && count
                == u64::MAX
        }),
{
}

/// What `propose` stores is the proposal as it was given, with one approval, its
/// proposer's, and the new count; nothing else in storage changes.
pub proof fn law_propose_stores(
    v: LedgerView,
    proposer: Address,
    action: soroban_sdk::Symbol,
    payload: soroban_sdk::Bytes,
    unlock_at: u64,
)
    ensures
        ({
            let w = v.after_propose(proposer, action, payload, unlock_at);
            let r = v.propose_outcome(proposer);
            let id = r->Ok_0;
            &&& v.emergency_lock == Some(true) ==> w == v
            &&& v.emergency_lock != Some(true) && r is Err ==> only_asked_auth(v, w, proposer)
            &&& r is Ok ==> {
                &&& w.proposals.contains_key(id)
                &&& w.proposals[id] == (MsProposal {
                    proposer,
                    action,
                    payload,
                    approvals: 1u32,
                    executed: false,
                    unlock_at,
                })
                &&& w.approvals.contains((id, proposer))
                &&& same_but(v, w, id, proposer)
                &&& w.proposal_count == Some(id)
                &&& same_signers(v, w)
                &&& w.emergency_lock == v.emergency_lock
                &&& w.timestamp == v.timestamp
                &&& w.effects == v.effects + seq![
                    Effect::RequireAuth { who: proposer },
                    Effect::ExtendProposal {
                        id,
                        threshold: PERSISTENT_LIFETIME_THRESHOLD,
                        extend_to: PERSISTENT_BUMP_AMOUNT,
                    },
                    Effect::ExtendInstance {
                        threshold: INSTANCE_LIFETIME_THRESHOLD,
                        extend_to: INSTANCE_BUMP_AMOUNT,
                    },
                    Effect::Publish { event: Event::ProposalCreated { id, proposer } },
                ]
            }
        }),
{
    let w = v.after_propose(proposer, action, payload, unlock_at);
    let r = v.propose_outcome(proposer);
    if r is Ok {
        let id = r->Ok_0;
        assert(w.effects =~= v.effects + seq![
            Effect::RequireAuth { who: proposer },
            Effect::ExtendProposal {
                id,
                threshold: PERSISTENT_LIFETIME_THRESHOLD,
                extend_to: PERSISTENT_BUMP_AMOUNT,
            },
            Effect::ExtendInstance {
                threshold: INSTANCE_LIFETIME_THRESHOLD,
                extend_to: INSTANCE_BUMP_AMOUNT,
            },
            Effect::Publish { event: Event::ProposalCreated { id, proposer } },
        ]);
    } else if v.emergency_lock != Some(true) {
        assert(w.effects =~= v.effects.push(Effect::RequireAuth { who: proposer }));
    }
}

/// When `approve` gives which answer. In particular a listed signer's first
/// approval of a proposal that is not executed is counted at every time, before
/// and after the time lock has elapsed.
pub proof fn law_approve_answers(v: LedgerView, caller: Address, id: u64)
    ensures
        ({
            let r = v.approve_outcome(caller, id);
            let open = v.emergency_lock != Some(true);
            let acts = open && may_act(v, caller);
            let found = acts && v.proposals.contains_key(id);
            let p = v.proposals[id];
            let first = !v.approvals.contains((id, caller));
            &&& r is Ok <==> found && !p.executed && first && p.approvals < u32::MAX
            &&& r is Ok ==> r->Ok_0 == p.approvals + 1
            &&& r == Err::<u32, Error>(Error::EmergencyLock) <==> !open
            &&& r == Err::<u32, Error>(Error::NotInitialized) <==> open && v.signers is None
            &&& r == Err::<u32, Error>(Error::NotASigner) <==> open && v.signers is Some && !acts
            &&& r == Err::<u32, Error>(Error::NotFound) <==> acts && !found
            &&& r == Err::<u32, Error>(Error::InvalidProposalState) <==> found && p.executed
            &&& r == Err::<u32, Error>(Error::AlreadySigned) <==> found && !p.executed && !first
            &&& r == Err::<u32, Error>(Error::Overflow) <==> found && !p.executed && first
                && p.approvals == u32::MAX
        }),
{
}

/// What `approve` stores is one more approval of that proposal, the caller's;
/// the rest of the proposal and everything else in storage stays.
pub proof fn law_approve_stores(v: LedgerView, caller: Address, id: u64)
    ensures
        ({
            let w = v.after_approve(caller, id);
            let r = v.approve_outcome(caller, id);
            let p = v.proposals[id];
            let q = w.proposals[id];
            &&& v.emergency_lock == Some(true) ==> w == v
            &&& v.emergency_lock != Some(true) && r is Err ==> only_asked_auth(v, w, caller)
            &&& r is Ok ==> {
                &&& w.proposals.contains_key(id)
                &&& q.proposer == p.proposer
                &&& q.action == p.action
                &&& q.payload == p.payload
                &&& q.approvals == p.approvals + 1
                &&& !q.executed
                &&& q.unlock_at == p.unlock_at
                &&& w.approvals.contains((id, caller))
                &&& same_but(v, w, id, caller)
                &&& w.proposal_count == v.proposal_count
                &&& same_signers(v, w)
                &&& w.emergency_lock == v.emergency_lock
                &&& w.timestamp == v.timestamp
                &&& w.effects == v.effects + proposal_effects(
                    caller,
                    id,
                    Event::ProposalApproved { id, signer: caller, approvals: q.approvals },
                )
            }
        }),
{
    let w = v.after_approve(caller, id);
    let r = v.approve_outcome(caller, id);
    if r is Ok {
        assert(w.effects =~= v.effects + proposal_effects(
            caller,
            id,
            Event::ProposalApproved {
                id,
                signer: caller,
                approvals: w.proposals[id].approvals,
            },
        ));
    } else if v.emergency_lock != Some(true) {
        assert(w.effects =~= v.effects.push(Effect::RequireAuth { who: caller }));
    }
}

/// When `execute` gives which answer. In particular a proposal executes, on
/// behalf of a listed signer, exactly where it has not executed, has as many
/// approvals as the stored threshold, and its time has come.
pub proof fn law_execute_answers(v: LedgerView, caller: Address, id: u64)
    ensures
        ({
            let r = v.execute_outcome(caller, id);
            let open = v.emergency_lock != Some(true);
            let acts = open && may_act(v, caller);
            let found = acts && v.proposals.contains_key(id);
            let p = v.proposals[id];
            let pending = found && !p.executed;
            let set_up = v.threshold is Some;
            let enough = p.approvals >= v.threshold->0;
            let due = v.timestamp >= p.unlock_at;
            &&& r is Ok <==> pending && set_up && enough && due
            &&& r == Err::<(), Error>(Error::EmergencyLock) <==> !open
            &&& r == Err::<(), Error>(Error::NotInitialized) <==> open && (v.signers is None || (
            pending && !set_up))
            &&& r == Err::<(), Error>(Error::NotASigner) <==> open && v.signers is Some && !acts
            &&& r == Err::<(), Error>(Error::NotFound) <==> acts && !found
            &&& r == Err::<(), Error>(Error::InvalidProposalState) <==> found && p.executed
            &&& r == Err::<(), Error>(Error::ThresholdNotMet) <==> pending && set_up && !enough
            &&& r == Err::<(), Error>(Error::TimeLocked) <==> pending && set_up && enough && !due
        }),
{
}

/// What `execute` stores is that the proposal is executed; the rest of the
/// proposal and everything else in storage stays.
pub proof fn law_execute_stores(v: LedgerView, caller: Address, id: u64)
    ensures
        ({
            let w = v.after_execute(caller, id);
            let r = v.execute_outcome(caller, id);
            let p = v.proposals[id];
            let q = w.proposals[id];
            &&& v.emergency_lock == Some(true) ==> w == v
            &&& v.emergency_lock != Some(true) && r is Err ==> only_asked_auth(v, w, caller)
            &&& r is Ok ==> {
                &&& w.proposals.contains_key(id)
                &&& q.executed
                &&& q.proposer == p.proposer
                &&& q.action == p.action
                &&& q.payload == p.payload
                &&& q.approvals == p.approvals
                &&& q.unlock_at == p.unlock_at
                &&& same_but(v, w, id, caller)
                &&& w.approvals == v.approvals
                &&& w.proposal_count == v.proposal_count
                &&& same_signers(v, w)
                &&& w.emergency_lock == v.emergency_lock
                &&& w.timestamp == v.timestamp
                &&& w.effects == v.effects + proposal_effects(
                    caller,
                    id,
                    Event::ProposalExecuted { id },
                )
            }
        }),
{
    let w = v.after_execute(caller, id);
    let r = v.execute_outcome(caller, id);
    if r is Ok {
        assert(w.effects =~= v.effects + proposal_effects(
            caller,
            id,
            Event::ProposalExecuted { id },
        ));
    } else if v.emergency_lock != Some(true) {
        assert(w.effects =~= v.effects.push(Effect::RequireAuth { who: caller }));
    }
}

/// The topics of an event go by its sort, whatever it is about.
pub proof fn law_topics(
    signer: Address,
    threshold: u32,
    locked: bool,
    id: u64,
    approvals: u32,
)
    ensures
        (Event::SignerAdded { signer }).topic_names() == ("signer"@, "added"@),
        (Event::SignerRemoved { signer }).topic_names() == ("signer"@, "removed"@),
        (Event::ThresholdChanged { threshold }).topic_names() == ("threshold"@, "changed"@),
        (Event::EmergencyLock { locked }).topic_names() == ("emergency"@, "lock"@),
        (Event::ProposalCreated { id, proposer: signer }).topic_names() == (
            "proposal"@,
            "created"@,
        ),
        (Event::ProposalApproved { id, signer, approvals }).topic_names() == (
            "proposal"@,
            "approved"@,
        ),
        (Event::ProposalExecuted { id }).topic_names() == ("proposal"@, "executed"@),
{
}

} // verus!
