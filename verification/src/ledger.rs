//! What the contract keeps between requests, and what a request asks of its
//! host.

use crate::address_list::{Address, AddressList};
use crate::model::LedgerView;
use std::collections::BTreeMap;
use vstd::prelude::*;

verus! {

/// A short name of the contract environment, carried unread.
#[verifier::external_type_specification]
#[verifier::external_body]
pub struct ExSymbol(soroban_sdk::Symbol);

/// A byte string of the contract environment, carried unread.
#[verifier::external_type_specification]
#[verifier::external_body]
pub struct ExBytes(soroban_sdk::Bytes);

/// A multisig proposal. `action` and `payload` describe the intended change or
/// call; the multisig only records approvals and marks the proposal executed
/// once the threshold is met. Value is moved by the calling context, which
/// looks at `executed`.
#[derive(Debug, PartialEq, Eq)]
pub struct MsProposal {
    pub proposer: Address,
    /// A short action tag, such as `payment` or `config`.
    pub action: soroban_sdk::Symbol,
    /// An opaque payload, such as a serialized transfer intent or a hash.
    pub payload: soroban_sdk::Bytes,
    pub approvals: u32,
    pub executed: bool,
    /// The earliest time at which execution is allowed; zero for no time lock.
    pub unlock_at: u64,
}

/// What the contract announces.
#[derive(Clone, Copy, Debug, PartialEq, Eq)]
pub enum Event {
    SignerAdded { signer: Address },
    SignerRemoved { signer: Address },
    ThresholdChanged { threshold: u32 },
    EmergencyLock { locked: bool },
    ProposalCreated { id: u64, proposer: Address },
    ProposalApproved { id: u64, signer: Address, approvals: u32 },
    ProposalExecuted { id: u64 },
}

/// What a request asks of the host, in the order of asking.
///
/// The host settles authorizations before it stores anything, and it settles
/// them for a refused request too. A refused request asks for nothing else.
#[derive(Clone, Copy, Debug, PartialEq, Eq)]
pub enum Effect {
    /// Abort unless the address has authorized the request.
    RequireAuth { who: Address },
    /// If the contract configuration would live for less than `threshold`
    /// ledgers, let it live for `extend_to` ledgers.
    ExtendInstance { threshold: u32, extend_to: u32 },
    /// The same for the record of one proposal.
    ExtendProposal { id: u64, threshold: u32, extend_to: u32 },
    /// Publish the event.
    Publish { event: Event },
}

impl Event {
    /// The two topics under which the event is published.
    pub open spec fn topic_names(self) -> (Seq<char>, Seq<char>) {
        match self {
            Event::SignerAdded { .. } => ("signer"@, "added"@),
            Event::SignerRemoved { .. } => ("signer"@, "removed"@),
            Event::ThresholdChanged { .. } => ("threshold"@, "changed"@),
            Event::EmergencyLock { .. } => ("emergency"@, "lock"@),
            Event::ProposalCreated { .. } => ("proposal"@, "created"@),
            Event::ProposalApproved { .. } => ("proposal"@, "approved"@),
            Event::ProposalExecuted { .. } => ("proposal"@, "executed"@),
        }
    }

    /// The two topics under which the event is published.
    pub fn topics(&self) -> (names: (&'static str, &'static str))
        ensures
            (names.0@, names.1@) == self.topic_names(),
    {
        match self {
            Event::SignerAdded { .. } => ("signer", "added"),
            Event::SignerRemoved { .. } => ("signer", "removed"),
            Event::ThresholdChanged { .. } => ("threshold", "changed"),
            Event::EmergencyLock { .. } => ("emergency", "lock"),
            Event::ProposalCreated { .. } => ("proposal", "created"),
            Event::ProposalApproved { .. } => ("proposal", "approved"),
            Event::ProposalExecuted { .. } => ("proposal", "executed"),
        }
    }
}

/// The contract's storage at the time of a request, with the log of what has
/// been asked of the host.
pub struct Ledger {
    /// The current signer set.
    pub signers: Option<AddressList>,
    /// The current approval threshold.
    pub threshold: Option<u32>,
    /// The emergency lock.
    pub emergency_lock: Option<bool>,
    /// The monotonic proposal counter: the id given to the latest proposal.
    pub proposal_count: Option<u64>,
    /// The proposals by id.
    pub proposals: BTreeMap<u64, MsProposal>,
    /// Which address approved which proposal.
    pub approvals: Vec<(u64, Address)>,
    /// The time at which the ledger closed, in seconds since the Unix epoch.
    pub timestamp: u64,
    /// What has been asked of the host.
    pub effects: Vec<Effect>,
}

impl View for Ledger {
    type V = LedgerView;

    open spec fn view(&self) -> LedgerView {
        LedgerView {
            signers: match self.signers {
                Some(list) => Some(list@),
                None => None,
            },
            threshold: self.threshold,
            emergency_lock: self.emergency_lock,
            proposal_count: self.proposal_count,
            proposals: self.proposals@,
            approvals: self.approvals@.to_set(),
            timestamp: self.timestamp,
            effects: self.effects@,
        }
    }
}

impl Ledger {
    /// The storage of a contract that has not been set up, at the given time.
    pub fn new(timestamp: u64) -> (ledger: Ledger)
        ensures
            ledger@ == LedgerView::blank(timestamp),
    {
        let ledger = Ledger {
            signers: None,
            threshold: None,
            emergency_lock: None,
            proposal_count: None,
            proposals: BTreeMap::new(),
            approvals: Vec::new(),
            timestamp,
            effects: Vec::new(),
        };
        assert(ledger@.approvals =~= Set::<(u64, Address)>::empty());
        ledger
    }

    /// Whether the address approved the proposal.
    pub fn has_approved(&self, id: u64, who: Address) -> (found: bool)
        ensures
            found == self@.approvals.contains((id, who)),
    {
        let mut i: usize = 0;
        while i < self.approvals.len()
            invariant
                i <= self.approvals@.len(),
                forall|j: int| 0 <= j < i ==> self.approvals@[j] != (id, who),
            decreases self.approvals@.len() - i,
        {
            let (approved_id, signer) = self.approvals[i];
            if approved_id == id && signer.0 == who.0 && signer.1 == who.1 && signer.2 == who.2 {
                assert(self.approvals@.contains((id, who)));
                return true;
            }
            i = i + 1;
        }
        false
    }
}

} // verus!
