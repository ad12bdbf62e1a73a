//! What holds of all requests together.

use crate::address_list::Address;
use crate::constants::MAX_SIGNERS;
use crate::errors::Error;
use crate::ledger::Effect;
use crate::model::{threshold_fits, LedgerView};
use vstd::prelude::*;

verus! {

/// A request that can change the ledger.
pub enum Request {
    Initialize { signers: Seq<Address>, threshold: u32 },
    AddSigner { caller: Address, signer: Address },
    RemoveSigner { caller: Address, signer: Address },
    SetThreshold { caller: Address, threshold: u32 },
    SetEmergencyLock { caller: Address, locked: bool },
    Propose {
        caller: Address,
        action: soroban_sdk::Symbol,
        payload: soroban_sdk::Bytes,
        unlock_at: u64,
    },
    Approve { caller: Address, id: u64 },
    Execute { caller: Address, id: u64 },
}

impl Request {
    /// On whose behalf the request is made; setting up is on nobody's.
    pub open spec fn caller(self) -> Option<Address> {
        match self {
            Request::Initialize { .. } => None,
            Request::AddSigner { caller, .. } => Some(caller),
            Request::RemoveSigner { caller, .. } => Some(caller),
            Request::SetThreshold { caller, .. } => Some(caller),
            Request::SetEmergencyLock { caller, .. } => Some(caller),
            Request::Propose { caller, .. } => Some(caller),
            Request::Approve { caller, .. } => Some(caller),
            Request::Execute { caller, .. } => Some(caller),
        }
    }

    /// Whether the request makes, approves or executes a proposal.
    pub open spec fn on_proposals(self) -> bool {
        self is Propose || self is Approve || self is Execute
    }
}

/// The error of an outcome, if it is one.
pub open spec fn error_of<T>(outcome: Result<T, Error>) -> Option<Error> {
    match outcome {
        Ok(_) => None,
        Err(e) => Some(e),
    }
}

impl LedgerView {
    /// The error with which a request is refused, if it is.
    pub open spec fn refusal(self, request: Request) -> Option<Error> {
        match request {
            Request::Initialize { signers, threshold } => error_of(
                self.initialize_outcome(signers, threshold),
            ),
            Request::AddSigner { caller, signer } => error_of(
                self.add_signer_outcome(caller, signer),
            ),
            Request::RemoveSigner { caller, signer } => error_of(
                self.remove_signer_outcome(caller, signer),
            ),
            Request::SetThreshold { caller, threshold } => error_of(
                self.set_threshold_outcome(caller, threshold),
            ),
            Request::SetEmergencyLock { caller, .. } => error_of(self.signer_outcome(caller)),
            Request::Propose { caller, .. } => error_of(self.propose_outcome(caller)),
            Request::Approve { caller, id } => error_of(self.approve_outcome(caller, id)),
            Request::Execute { caller, id } => error_of(self.execute_outcome(caller, id)),
        }
    }

    /// The ledger after a request.
    pub open spec fn after(self, request: Request) -> LedgerView {
        match request {
            Request::Initialize { signers, threshold } => self.after_initialize(signers, threshold),
            Request::AddSigner { caller, signer } => self.after_add_signer(caller, signer),
            Request::RemoveSigner { caller, signer } => self.after_remove_signer(caller, signer),
            Request::SetThreshold { caller, threshold } => self.after_set_threshold(
                caller,
                threshold,
            ),
            Request::SetEmergencyLock { caller, locked } => self.after_set_emergency_lock(
                caller,
                locked,
            ),
            Request::Propose { caller, action, payload, unlock_at } => self.after_propose(
                caller,
                action,
                payload,
                unlock_at,
            ),
            Request::Approve { caller, id } => self.after_approve(caller, id),
            Request::Execute { caller, id } => self.after_execute(caller, id),
        }
    }

    /// The same ledger at another time.
    pub open spec fn at(self, timestamp: u64) -> LedgerView {
        LedgerView { timestamp, ..self }
    }

    /// The ledger after a history of requests, each with its time.
    pub open spec fn run(self, history: Seq<(u64, Request)>) -> LedgerView
        decreases history.len(),
    {
        if history.len() == 0 {
            self
        } else {
            self.run(history.drop_last()).at(history.last().0).after(history.last().1)
        }
    }

    /// Whether two ledgers store the same.
    pub open spec fn stores_as(self, other: LedgerView) -> bool {
        self == LedgerView { effects: self.effects, ..other }
    }

    /// The addresses that approved a proposal.
    pub open spec fn approvers(self, id: u64) -> Set<Address> {
        Set::new(|who: Address| self.approvals.contains((id, who)))
    }

    /// Whether the configuration is whole: it is set up in all parts or in
    /// none, and once it is, no signer is there twice, there are no more than
    /// `MAX_SIGNERS`, and the threshold is one that the signers can reach.
    pub open spec fn config_valid(self) -> bool {
        &&& self.signers is Some <==> self.threshold is Some
        &&& self.signers is Some <==> self.emergency_lock is Some
        &&& self.signers is Some <==> self.proposal_count is Some
        &&& self.signers is Some ==> {
            &&& self.signers->0.no_duplicates()
            &&& self.signers->0.len() <= MAX_SIGNERS
            &&& threshold_fits(self.threshold->0, self.signers->0.len())
        }
    }

    /// Whether the books are exact: the ids are those from one to the count, or
    /// none before setting up, every approval is for a proposal, and each
    /// proposal counts its approvers, its proposer among them.
    pub open spec fn books_exact(self) -> bool {
        &&& forall|id: u64| #[trigger] self.approvers(id).finite()
        &&& forall|id: u64| #[trigger]
            self.proposals.contains_key(id) <==> self.proposal_count is Some && 1 <= id
                <= self.proposal_count->0
        &&& forall|id: u64| #[trigger]
            self.proposals.contains_key(id) ==> {
                &&& self.proposals[id].approvals == self.approvers(id).len()
                &&& self.approvals.contains((id, self.proposals[id].proposer))
            }
        &&& forall|id: u64, who: Address| #[trigger]
            self.approvals.contains((id, who)) ==> self.proposals.contains_key(id)
    }

    /// Whether a request would make a proposal under the given id.
    pub open spec fn makes(self, request: Request, id: u64) -> bool {
        request is Propose && self.propose_outcome(request.caller()->0) == Ok::<u64, Error>(id)
    }

    /// Whether a request would approve a proposal, by making it or afterwards.
    pub open spec fn approves(self, request: Request, id: u64) -> bool {
        self.refusal(request) is None && (self.makes(request, id) || (request is Approve
            && request->Approve_id == id))
    }

    /// Whether two ledgers agree on the configuration, the time, one proposal,
    /// and whether one address approved it.
    pub open spec fn agrees_with(self, other: LedgerView, id: u64, who: Address) -> bool {
        &&& self.signers == other.signers
        &&& self.threshold == other.threshold
        &&& self.emergency_lock == other.emergency_lock
        &&& self.proposal_count == other.proposal_count
        &&& self.timestamp == other.timestamp
        &&& self.proposals.contains_key(id) <==> other.proposals.contains_key(id)
        &&& self.proposals.contains_key(id) ==> self.proposals[id] == other.proposals[id]
        &&& self.approvals.contains((id, who)) <==> other.approvals.contains((id, who))
    }
}

/// A refused request changes nothing in storage, and asks nothing of the host
/// but, at most, the authorization of its caller.
pub proof fn law_refusal_changes_nothing(v: LedgerView, request: Request)
    requires
        v.refusal(request) is Some,
    ensures
        v.after(request) == v || (request.caller() is Some && v.after(request) == v.asking_auth(
            request.caller()->0,
        )),
        v.after(request).stores_as(v),
{
}

/// What was asked of the host before a request stays asked.
pub proof fn law_effects_only_grow(v: LedgerView, request: Request)
    ensures
        v.effects.is_prefix_of(v.after(request).effects),
{
}

/// Past setting up, storage changes only on behalf of a current signer, and
/// only after asking for that signer's authorization.
pub proof fn law_change_needs_signer(v: LedgerView, request: Request)
    requires
        !(request is Initialize),
        !v.after(request).stores_as(v),
    ensures
        v.has_signer(request.caller()->0),
        v.after(request).effects.len() > v.effects.len(),
        v.after(request).effects[v.effects.len() as int] == (Effect::RequireAuth {
            who: request.caller()->0,
        }),
{
}

/// A request asks for its caller's authorization at most once, and for nobody
/// else's.
pub proof fn law_only_the_caller_is_asked(v: LedgerView, request: Request, k: int)
    requires
        v.effects.len() <= k < v.after(request).effects.len(),
        v.after(request).effects[k] is RequireAuth,
    ensures
        k == v.effects.len(),
        request.caller() is Some,
        v.after(request).effects[k] == (Effect::RequireAuth { who: request.caller()->0 }),
{
}

/// A request on behalf of an address that is no signer is refused.
pub proof fn law_outsider_is_refused(v: LedgerView, request: Request)
    requires
        request.caller() is Some,
        !v.has_signer(request.caller()->0),
    ensures
        v.refusal(request) is Some,
{
}

/// A request past setting up that is not refused ends with an event.
pub proof fn law_success_is_announced(v: LedgerView, request: Request)
    requires
        !(request is Initialize),
        v.refusal(request) is None,
    ensures
        v.after(request).effects.len() > 0,
        v.after(request).effects.last() is Publish,
{
}

/// Each part of the configuration changes only by setting up and by the
/// requests that are for it; time is changed by none.
pub proof fn law_config_changes_on_purpose(v: LedgerView, request: Request)
    ensures
        !(request is Initialize || request is AddSigner || request is RemoveSigner) ==> v.after(
            request,
        ).signers == v.signers,
        !(request is Initialize || request is SetThreshold) ==> v.after(request).threshold
            == v.threshold,
        !(request is Initialize || request is SetEmergencyLock) ==> v.after(request).emergency_lock
            == v.emergency_lock,
        !(request is Initialize || request is Propose) ==> v.after(request).proposal_count
            == v.proposal_count,
        !request.on_proposals() ==> v.after(request).proposals == v.proposals && v.after(
            request,
        ).approvals == v.approvals,
        v.after(request).timestamp == v.timestamp,
{
}

/// While the emergency lock is on, proposals cannot be made, approved or
/// executed: the answer is the lock's error and the ledger stays as it is.
pub proof fn law_lock_stops_proposals(v: LedgerView, request: Request)
    requires
        v.locked(),
        request.on_proposals(),
    ensures
        v.refusal(request) == Some(Error::EmergencyLock),
        v.after(request) == v,
{
}

/// The lock stops nothing but requests on proposals: every other one is
/// answered as it would be with the lock off.
pub proof fn law_lock_spares_governance(v: LedgerView, locked: bool, request: Request)
    requires
        !request.on_proposals(),
    ensures
        v.refusal(request) == (LedgerView { emergency_lock: Some(locked), ..v }).refusal(request),
{
}

/// The lock stays on, whatever is asked, until a signer turns it off.
pub proof fn law_lock_stays_on(v: LedgerView, request: Request)
    requires
        v.config_valid(),
        v.locked(),
    ensures
        v.after(request).locked() || {
            &&& request is SetEmergencyLock
            &&& !request->locked
            &&& v.has_signer(request.caller()->0)
        },
{
}

/// Turning the lock off opens the way again: any signer's next proposal is
/// accepted, under the next id, as long as there is one.
pub proof fn law_unlocking_resumes(v: LedgerView, caller: Address, proposer: Address)
    requires
        v.config_valid(),
        v.has_signer(caller),
        v.has_signer(proposer),
    ensures
        ({
            let open = v.after_set_emergency_lock(caller, false);
            &&& v.signer_outcome(caller) is Ok
            &&& open.propose_outcome(proposer) == (if v.proposal_count->0 == u64::MAX {
                Err(Error::Overflow)
            } else {
                Ok((v.proposal_count->0 + 1) as u64)
            })
        }),
{
}

/// A signer can always turn the lock on and off again, and then everything in
/// storage is as it was before.
pub proof fn law_lock_round_trip(v: LedgerView, caller: Address)
    requires
        v.has_signer(caller),
        v.emergency_lock == Some(false),
    ensures
        ({
            let on = v.after_set_emergency_lock(caller, true);
            let off = on.after_set_emergency_lock(caller, false);
            &&& v.signer_outcome(caller) is Ok
            &&& on.locked()
            &&& on.signer_outcome(caller) is Ok
            &&& off.stores_as(v)
        }),
{
}

/// Setting up works once: afterwards the contract stays set up, whatever is
/// asked, and setting it up again is refused.
pub proof fn law_initialize_once(
    v: LedgerView,
    request: Request,
    signers: Seq<Address>,
    threshold: u32,
)
    requires
        v.threshold is Some,
    ensures
        v.after(request).threshold is Some,
        v.initialize_outcome(signers, threshold) == Err::<(), Error>(Error::AlreadyInitialized),
{
}

/// Removing a value from a sequence without duplicates takes out that value and
/// no other.
proof fn lemma_remove_value(s: Seq<Address>, x: Address)
    requires
        s.no_duplicates(),
        s.contains(x),
    ensures
        s.remove_value(x).no_duplicates(),
        s.remove_value(x).len() == s.len() - 1,
        forall|y: Address| #[trigger]
            s.remove_value(x).contains(y) <==> s.contains(y) && y != x,
{
    s.index_of_first_ensures(x);
    let i = s.index_of_first(x)->0;
    let t = s.remove(i);
    assert(t == s.remove_value(x));
    assert forall|y: Address| #[trigger] t.contains(y) <==> s.contains(y) && y != x by {
        if t.contains(y) {
            let k = choose|k: int| 0 <= k < t.len() && t[k] == y;
            if k < i {
                assert(s[k] == y);
            } else {
                assert(s[k + 1] == y);
            }
        }
        if s.contains(y) && y != x {
            let k = choose|k: int| 0 <= k < s.len() && s[k] == y;
            if k < i {
                assert(t[k] == y);
            } else {
                assert(t[k - 1] == y);
            }
        }
    }
}

/// Every request keeps the configuration whole.
pub proof fn law_config_stays_valid(v: LedgerView, request: Request)
    requires
        v.config_valid(),
    ensures
        v.after(request).config_valid(),
{
    match request {
        Request::RemoveSigner { caller, signer } => {
            if v.remove_signer_outcome(caller, signer) is Ok {
                lemma_remove_value(v.signers->0, signer);
            }
        },
        _ => {},
    }
}

/// Whatever is asked of a new contract, its configuration is whole: once set
/// up, it has between one and `MAX_SIGNERS` signers, each of them once, and
/// never fewer than the threshold asks for.
pub proof fn law_config_always_valid(start: u64, history: Seq<(u64, Request)>)
    ensures
        LedgerView::blank(start).run(history).config_valid(),
    decreases history.len(),
{
    if history.len() > 0 {
        law_config_always_valid(start, history.drop_last());
        law_config_stays_valid(
            LedgerView::blank(start).run(history.drop_last()).at(history.last().0),
            history.last().1,
        );
    }
}

/// Adding a signer makes that address a signer and leaves all others alone.
pub proof fn law_added_signer(v: LedgerView, caller: Address, signer: Address, who: Address)
    requires
        v.add_signer_outcome(caller, signer) is Ok,
    ensures
        v.after_add_signer(caller, signer).has_signer(who) <==> v.has_signer(who) || who == signer,
{
    let s = v.signers->0;
    let t = s.push(signer);
    if who == signer {
        assert(t[s.len() as int] == who);
    }
    if s.contains(who) {
        let k = choose|k: int| 0 <= k < s.len() && s[k] == who;
        assert(t[k] == who);
    }
}

/// Removing a signer ends that address's being a signer and leaves all others
/// alone.
pub proof fn law_removed_signer(v: LedgerView, caller: Address, signer: Address, who: Address)
    requires
        v.config_valid(),
        v.remove_signer_outcome(caller, signer) is Ok,
    ensures
        v.after_remove_signer(caller, signer).has_signer(who) <==> v.has_signer(who) && who
            != signer,
{
    lemma_remove_value(v.signers->0, signer);
}

/// A signer that was just added can be removed again, and then everything in
/// storage is as it was before.
pub proof fn law_add_then_remove(v: LedgerView, caller: Address, signer: Address)
    requires
        v.config_valid(),
        v.add_signer_outcome(caller, signer) is Ok,
    ensures
        ({
            let added = v.after_add_signer(caller, signer);
            &&& added.remove_signer_outcome(caller, signer) is Ok
            &&& added.after_remove_signer(caller, signer).stores_as(v)
        }),
{
    let s = v.signers->0;
    let t = s.push(signer);
    law_added_signer(v, caller, signer, caller);
    law_added_signer(v, caller, signer, signer);
    t.index_of_first_ensures(signer);
    let i = t.index_of_first(signer)->0;
    if i < s.len() {
        assert(s[i] == signer);
    }
    assert(t.remove(i) =~= s);
}

/// A signer that was just removed by another one can be added again, and then
/// the same addresses are signers as before.
pub proof fn law_remove_then_add(v: LedgerView, caller: Address, signer: Address, who: Address)
    requires
        v.config_valid(),
        caller != signer,
        v.remove_signer_outcome(caller, signer) is Ok,
    ensures
        ({
            let removed = v.after_remove_signer(caller, signer);
            &&& removed.add_signer_outcome(caller, signer) is Ok
            &&& removed.after_add_signer(caller, signer).has_signer(who) <==> v.has_signer(who)
        }),
{
    lemma_remove_value(v.signers->0, signer);
    law_added_signer(v.after_remove_signer(caller, signer), caller, signer, who);
}

/// A new proposal is stored as it was made, with its proposer's approval and no
/// other counted, not executed; the ones before it stay as they are.
pub proof fn law_new_proposal(
    v: LedgerView,
    proposer: Address,
    action: soroban_sdk::Symbol,
    payload: soroban_sdk::Bytes,
    unlock_at: u64,
    other: u64,
)
    requires
        v.propose_outcome(proposer) is Ok,
    ensures
        ({
            let id = v.propose_outcome(proposer)->Ok_0;
            let after = v.after_propose(proposer, action, payload, unlock_at);
            let p = after.proposals[id];
            &&& after.proposals.contains_key(id)
            &&& p.proposer == proposer
            &&& p.action == action
            &&& p.payload == payload
            &&& p.unlock_at == unlock_at
            &&& p.approvals == 1
            &&& !p.executed
            &&& after.approvals.contains((id, proposer))
            &&& other != id ==> (after.proposals.contains_key(other)
                <==> v.proposals.contains_key(other))
            &&& other != id && v.proposals.contains_key(other) ==> after.proposals[other]
                == v.proposals[other]
        }),
{
}

/// Where the books are exact, a new proposal gets an id above all those given
/// before, and has no approval left over from another one.
pub proof fn law_new_id_is_fresh(v: LedgerView, proposer: Address, id: u64, who: Address)
    requires
        v.books_exact(),
        v.propose_outcome(proposer) is Ok,
    ensures
        v.propose_outcome(proposer)->Ok_0 == v.proposal_count->0 + 1,
        v.proposals.contains_key(id) ==> id < v.propose_outcome(proposer)->Ok_0,
        !v.approvals.contains((v.propose_outcome(proposer)->Ok_0, who)),
{
}

/// A full counter refuses: with no id left nothing is proposed, and with no
/// approval left to count nothing is approved. Nothing is stored, and where
/// nothing else stands in the way the answer is `Overflow`.
pub proof fn law_full_counters_refuse(v: LedgerView, request: Request)
    requires
        ({
            ||| request is Propose && v.proposal_count == Some(u64::MAX)
            ||| request is Approve && v.proposals.contains_key(request->Approve_id)
                && v.proposals[request->Approve_id].approvals == u32::MAX
        }),
    ensures
        v.refusal(request) is Some,
        v.after(request).stores_as(v),
        !v.locked() && v.has_signer(request.caller()->0) && (request is Approve ==> {
            &&& !v.proposals[request->Approve_id].executed
            &&& !v.approvals.contains((request->Approve_id, request.caller()->0))
        }) ==> v.refusal(request) == Some(Error::Overflow),
{
}

/// The proposal counter never falls.
pub proof fn law_counter_is_monotonic(v: LedgerView, request: Request)
    requires
        v.config_valid(),
        v.proposal_count is Some,
    ensures
        v.after(request).proposal_count is Some,
        v.after(request).proposal_count->0 >= v.proposal_count->0,
{
}

/// A proposal's terms never change, whatever is asked: its proposer, action,
/// payload and time lock stay, its approvals never fall, and once executed it
/// stays executed.
pub proof fn law_terms_are_fixed(v: LedgerView, request: Request, id: u64)
    requires
        v.books_exact(),
        v.proposals.contains_key(id),
    ensures
        ({
            let p = v.proposals[id];
            let q = v.after(request).proposals[id];
            &&& v.after(request).proposals.contains_key(id)
            &&& q.proposer == p.proposer
            &&& q.action == p.action
            &&& q.payload == p.payload
            &&& q.unlock_at == p.unlock_at
            &&& q.approvals >= p.approvals
            &&& p.executed ==> q.executed
        }),
{
}

/// Execution is final: an executed proposal stays as it is, with the approvers
/// that it has, whatever is asked, and can be neither approved nor executed
/// again.
pub proof fn law_execution_is_final(v: LedgerView, request: Request, id: u64, caller: Address)
    requires
        v.proposals.contains_key(id),
        v.proposals[id].executed,
        v.books_exact(),
    ensures
        v.after(request).proposals.contains_key(id),
        v.after(request).proposals[id] == v.proposals[id],
        v.after(request).approvers(id) == v.approvers(id),
        v.approve_outcome(caller, id) is Err,
        v.execute_outcome(caller, id) is Err,
        !v.locked() && v.has_signer(caller) ==> {
            &&& v.approve_outcome(caller, id) == Err::<u32, Error>(Error::InvalidProposalState)
            &&& v.execute_outcome(caller, id) == Err::<(), Error>(Error::InvalidProposalState)
        },
{
    assert(v.after(request).approvers(id) =~= v.approvers(id));
}

/// An approval is never withdrawn, and whoever gave it cannot give it again.
pub proof fn law_one_approval_each(v: LedgerView, request: Request, id: u64, who: Address)
    requires
        v.approvals.contains((id, who)),
    ensures
        v.after(request).approvals.contains((id, who)),
        v.approve_outcome(who, id) is Err,
        !v.locked() && v.has_signer(who) && v.proposals.contains_key(id)
            && !v.proposals[id].executed ==> v.approve_outcome(who, id) == Err::<u32, Error>(
            Error::AlreadySigned,
        ),
{
}

/// Making or approving a proposal records the caller's approval.
pub proof fn law_approval_is_recorded(v: LedgerView, request: Request, id: u64)
    requires
        v.approves(request, id),
    ensures
        v.after(request).approvers(id) == v.approvers(id).insert(request.caller()->0),
{
    assert(v.after(request).approvers(id) =~= v.approvers(id).insert(request.caller()->0));
}

/// An approval adds one to the count of its proposal, and touches no other.
pub proof fn law_approval_counts_one(v: LedgerView, caller: Address, id: u64, other: u64)
    requires
        v.approve_outcome(caller, id) is Ok,
    ensures
        v.approve_outcome(caller, id)->Ok_0 == v.proposals[id].approvals + 1,
        v.after_approve(caller, id).proposals[id].approvals == v.proposals[id].approvals + 1,
        other != id && v.proposals.contains_key(other) ==> v.after_approve(
            caller,
            id,
        ).proposals[other] == v.proposals[other],
{
}

/// A proposal with fewer approvals than the threshold asks for cannot be
/// executed.
pub proof fn law_below_threshold(v: LedgerView, caller: Address, id: u64)
    requires
        !v.locked(),
        v.has_signer(caller),
        v.threshold is Some,
        v.proposals.contains_key(id),
        !v.proposals[id].executed,
        v.proposals[id].approvals < v.threshold->0,
    ensures
        v.execute_outcome(caller, id) == Err::<(), Error>(Error::ThresholdNotMet),
{
}

/// A proposal with enough approvals waits for its time lock, and for nothing
/// else; without a time lock it waits for nothing.
pub proof fn law_time_lock(v: LedgerView, caller: Address, id: u64)
    requires
        !v.locked(),
        v.has_signer(caller),
        v.threshold is Some,
        v.proposals.contains_key(id),
        !v.proposals[id].executed,
        v.proposals[id].approvals >= v.threshold->0,
    ensures
        v.execute_outcome(caller, id) == (if v.timestamp < v.proposals[id].unlock_at {
            Err(Error::TimeLocked)
        } else {
            Ok(())
        }),
        v.proposals[id].unlock_at == 0 ==> v.execute_outcome(caller, id) is Ok,
{
}

/// Executing marks the proposal executed and touches no other.
pub proof fn law_executed(v: LedgerView, caller: Address, id: u64, other: u64)
    requires
        v.execute_outcome(caller, id) is Ok,
    ensures
        v.after_execute(caller, id).proposals[id].executed,
        other != id && v.proposals.contains_key(other) ==> v.after_execute(
            caller,
            id,
        ).proposals[other] == v.proposals[other],
{
}

/// What a request does to the approvers of a proposal: it leaves them alone, or
/// adds its caller.
proof fn lemma_approvers_step(v: LedgerView, request: Request, id: u64)
    ensures
        ({
            let before = v.approvers(id);
            let after = v.after(request).approvers(id);
            ||| after == before
            ||| v.approves(request, id) && after == before.insert(request.caller()->0)
        }),
{
    if v.approves(request, id) {
        law_approval_is_recorded(v, request, id);
    } else {
        assert(v.after(request).approvers(id) =~= v.approvers(id));
    }
}

/// Every request keeps the books exact.
pub proof fn law_books_stay_exact(v: LedgerView, request: Request)
    requires
        v.config_valid(),
        v.books_exact(),
    ensures
        v.after(request).books_exact(),
{
    let w = v.after(request);
    assert forall|id: u64| #[trigger] w.approvers(id).finite() by {
        lemma_approvers_step(v, request, id);
        assert(v.approvers(id).finite());
    }
    assert forall|id: u64| #[trigger]
        w.proposals.contains_key(id) <==> w.proposal_count is Some && 1 <= id
            <= w.proposal_count->0 by {
        assert(v.proposals.contains_key(id) <==> v.proposal_count is Some && 1 <= id
            <= v.proposal_count->0);
    }
    assert forall|id: u64| #[trigger] w.proposals.contains_key(id) implies {
        &&& w.proposals[id].approvals == w.approvers(id).len()
        &&& w.approvals.contains((id, w.proposals[id].proposer))
    } by {
        lemma_approvers_step(v, request, id);
        assert(v.approvers(id).finite());
        if v.makes(request, id) {
            law_approval_is_recorded(v, request, id);
            assert(!v.proposals.contains_key(id));
            assert(v.approvers(id) =~= Set::empty());
        } else {
            assert(v.proposals.contains_key(id));
            if v.refusal(request) is None && request is Approve && request->Approve_id == id {
                law_approval_is_recorded(v, request, id);
                assert(!v.approvers(id).contains(request.caller()->0));
            }
        }
    }
    assert forall|id: u64, who: Address| #[trigger]
        w.approvals.contains((id, who)) implies w.proposals.contains_key(id) by {
        if v.approvals.contains((id, who)) {
            assert(v.proposals.contains_key(id));
        }
    }
}

/// The books are as exact at one time as at another.
proof fn lemma_books_at(before: LedgerView, now: u64)
    requires
        before.books_exact(),
    ensures
        before.at(now).books_exact(),
{
    let v = before.at(now);
    assert forall|id: u64| #[trigger] v.approvers(id) == before.approvers(id) by {
        assert(v.approvers(id) =~= before.approvers(id));
    }
    assert forall|id: u64| #[trigger]
        v.proposals.contains_key(id) <==> v.proposal_count is Some && 1 <= id
            <= v.proposal_count->0 by {
        assert(before.proposals.contains_key(id) <==> before.proposal_count is Some && 1 <= id
            <= before.proposal_count->0);
    }
    assert forall|id: u64| #[trigger] v.proposals.contains_key(id) implies {
        &&& v.proposals[id].approvals == v.approvers(id).len()
        &&& v.approvals.contains((id, v.proposals[id].proposer))
    } by {
        assert(before.proposals.contains_key(id));
        assert(v.approvers(id) == before.approvers(id));
    }
}

/// Whatever is asked of a new contract, its books are exact: each proposal
/// counts precisely the addresses that approved it, its proposer among them.
pub proof fn law_books_always_exact(start: u64, history: Seq<(u64, Request)>)
    ensures
        LedgerView::blank(start).run(history).books_exact(),
    decreases history.len(),
{
    let blank = LedgerView::blank(start);
    if history.len() > 0 {
        law_books_always_exact(start, history.drop_last());
        law_config_always_valid(start, history.drop_last());
        let before = blank.run(history.drop_last());
        lemma_books_at(before, history.last().0);
        law_books_stay_exact(before.at(history.last().0), history.last().1);
    } else {
        assert forall|id: u64| #[trigger] blank.approvers(id).finite() by {
            assert(blank.approvers(id) =~= Set::empty());
        }
    }
}

/// Nothing executes without a quorum: a proposal that can be executed has at
/// least as many approvers, all of them different, as the threshold asks for.
pub proof fn law_execution_needs_quorum(v: LedgerView, caller: Address, id: u64)
    requires
        v.books_exact(),
        v.execute_outcome(caller, id) is Ok,
    ensures
        v.approvers(id).finite(),
        v.approvers(id).len() >= v.threshold->0,
{
    assert(v.approvers(id).finite());
}

/// The signers can always reach a quorum: a proposal that all of them approved
/// has as many approvals as the threshold asks for.
pub proof fn law_all_signers_suffice(v: LedgerView, id: u64)
    requires
        v.config_valid(),
        v.books_exact(),
        v.proposals.contains_key(id),
        forall|who: Address| v.has_signer(who) ==> v.approvals.contains((id, who)),
    ensures
        v.proposals[id].approvals >= v.threshold->0,
{
    let s = v.signers->0;
    assert(v.approvers(id).finite());
    assert(s.to_set().subset_of(v.approvers(id))) by {
        assert forall|who: Address| s.to_set().contains(who) implies v.approvers(id).contains(
            who,
        ) by {
            assert(v.has_signer(who));
        }
    }
    s.unique_seq_to_set();
    vstd::set_lib::lemma_len_subset(s.to_set(), v.approvers(id));
}

/// Whoever approved a proposal of a new contract did so while a signer, in a
/// request of its own that was not refused and asked for its authorization.
pub proof fn law_approvers_were_signers(
    start: u64,
    history: Seq<(u64, Request)>,
    id: u64,
    who: Address,
)
    requires
        LedgerView::blank(start).run(history).approvals.contains((id, who)),
    ensures
        exists|k: int|
            0 <= k < history.len() && #[trigger] approves_at(start, history, k, id, who),
    decreases history.len(),
{
    let blank = LedgerView::blank(start);
    if history.len() > 0 {
        let shorter = history.drop_last();
        let v = blank.run(shorter).at(history.last().0);
        if blank.run(shorter).approvals.contains((id, who)) {
            law_approvers_were_signers(start, shorter, id, who);
            let k = choose|k: int|
                0 <= k < shorter.len() && #[trigger] approves_at(start, shorter, k, id, who);
            assert(shorter.take(k) =~= history.take(k));
            assert(approves_at(start, history, k, id, who));
        } else {
            let k = history.len() - 1;
            assert(history.take(k) =~= shorter);
            assert(approves_at(start, history, k, id, who));
        }
    }
}

/// Whether the request at a place of a new contract's history is the approval
/// of a proposal by a signer of that moment, who was asked to authorize it.
pub open spec fn approves_at(
    start: u64,
    history: Seq<(u64, Request)>,
    k: int,
    id: u64,
    who: Address,
) -> bool {
    let v = LedgerView::blank(start).run(history.take(k)).at(history[k].0);
    let request = history[k].1;
    &&& request.caller() == Some(who)
    &&& v.has_signer(who)
    &&& v.approves(request, id)
    &&& v.after(request).effects[v.effects.len() as int] == (Effect::RequireAuth { who })
}

/// Whether the request at a place of a new contract's history executes a
/// proposal by a signer of that moment, with a quorum of that moment.
pub open spec fn executes_at(start: u64, history: Seq<(u64, Request)>, k: int, id: u64) -> bool {
    let v = LedgerView::blank(start).run(history.take(k)).at(history[k].0);
    let request = history[k].1;
    &&& request is Execute
    &&& request->Execute_id == id
    &&& v.refusal(request) is None
    &&& v.has_signer(request.caller()->0)
    &&& v.approvers(id).finite()
    &&& v.approvers(id).len() >= v.threshold->0
}

/// A proposal of a new contract that counts as executed was executed, in a
/// request of a signer that was not refused, with a quorum of approvers.
pub proof fn law_executed_had_quorum(start: u64, history: Seq<(u64, Request)>, id: u64)
    requires
        LedgerView::blank(start).run(history).proposals.contains_key(id),
        LedgerView::blank(start).run(history).proposals[id].executed,
    ensures
        exists|k: int| 0 <= k < history.len() && #[trigger] executes_at(start, history, k, id),
    decreases history.len(),
{
    let blank = LedgerView::blank(start);
    if history.len() > 0 {
        let shorter = history.drop_last();
        let before = blank.run(shorter);
        let v = before.at(history.last().0);
        if before.proposals.contains_key(id) && before.proposals[id].executed {
            law_executed_had_quorum(start, shorter, id);
            let k = choose|k: int|
                0 <= k < shorter.len() && #[trigger] executes_at(start, shorter, k, id);
            assert(shorter.take(k) =~= history.take(k));
            assert(executes_at(start, history, k, id));
        } else {
            let k = history.len() - 1;
            assert(history.take(k) =~= shorter);
            law_books_always_exact(start, shorter);
            assert(before.approvers(id).finite());
            assert(v.approvers(id) =~= before.approvers(id));
            assert(executes_at(start, history, k, id));
        }
    }
}

/// The ledger after the first requests of a history.
pub open spec fn ledger_at(start: u64, history: Seq<(u64, Request)>, k: int) -> LedgerView {
    LedgerView::blank(start).run(history.take(k))
}

/// What a proposal of a new contract is at one place of its history, it stays
/// for the rest of it, as far as [`law_terms_are_fixed`] says.
pub proof fn law_terms_are_fixed_for_good(
    start: u64,
    history: Seq<(u64, Request)>,
    k: int,
    id: u64,
)
    requires
        0 <= k <= history.len(),
        ledger_at(start, history, k).proposals.contains_key(id),
    ensures
        ({
            let p = ledger_at(start, history, k).proposals[id];
            let q = LedgerView::blank(start).run(history).proposals[id];
            &&& LedgerView::blank(start).run(history).proposals.contains_key(id)
            &&& q.proposer == p.proposer
            &&& q.action == p.action
            &&& q.payload == p.payload
            &&& q.unlock_at == p.unlock_at
            &&& q.approvals >= p.approvals
            &&& p.executed ==> q.executed
        }),
    decreases history.len(),
{
    if k == history.len() {
        assert(history.take(k) =~= history);
    } else {
        let shorter = history.drop_last();
        assert(shorter.take(k) =~= history.take(k));
        law_terms_are_fixed_for_good(start, shorter, k, id);
        law_books_always_exact(start, shorter);
        lemma_books_at(LedgerView::blank(start).run(shorter), history.last().0);
        law_terms_are_fixed(
            LedgerView::blank(start).run(shorter).at(history.last().0),
            history.last().1,
            id,
        );
    }
}

/// A proposal of a new contract that is executed at one place of its history
/// stays precisely as it is for the rest of it, with the approvers that it has,
/// and is executed at most once: to a signer, unless the lock is on, the answer
/// to approving or executing it is `InvalidProposalState`.
pub proof fn law_execution_is_final_for_good(
    start: u64,
    history: Seq<(u64, Request)>,
    k: int,
    id: u64,
    now: u64,
    caller: Address,
)
    requires
        0 <= k <= history.len(),
        ledger_at(start, history, k).proposals.contains_key(id),
        ledger_at(start, history, k).proposals[id].executed,
    ensures
        ({
            let then = ledger_at(start, history, k);
            let v = LedgerView::blank(start).run(history).at(now);
            &&& v.proposals.contains_key(id)
            &&& v.proposals[id] == then.proposals[id]
            &&& v.approvers(id) == then.approvers(id)
            &&& v.approve_outcome(caller, id) is Err
            &&& v.execute_outcome(caller, id) is Err
            &&& !v.locked() && v.has_signer(caller) ==> {
                &&& v.approve_outcome(caller, id) == Err::<u32, Error>(Error::InvalidProposalState)
                &&& v.execute_outcome(caller, id) == Err::<(), Error>(Error::InvalidProposalState)
            }
        }),
    decreases history.len(),
{
    let v = LedgerView::blank(start).run(history);
    if k == history.len() {
        assert(history.take(k) =~= history);
    } else {
        let shorter = history.drop_last();
        assert(shorter.take(k) =~= history.take(k));
        law_execution_is_final_for_good(start, shorter, k, id, history.last().0, caller);
        law_books_always_exact(start, shorter);
        lemma_books_at(LedgerView::blank(start).run(shorter), history.last().0);
        law_execution_is_final(
            LedgerView::blank(start).run(shorter).at(history.last().0),
            history.last().1,
            id,
            caller,
        );
    }
    assert(v.at(now).approvers(id) =~= v.approvers(id));
}

/// The proposer of every proposal of a new contract is among its approvers, so
/// that the proposal counts at least one.
pub proof fn law_proposer_approves(start: u64, history: Seq<(u64, Request)>, id: u64)
    requires
        LedgerView::blank(start).run(history).proposals.contains_key(id),
    ensures
        ({
            let v = LedgerView::blank(start).run(history);
            &&& v.approvers(id).contains(v.proposals[id].proposer)
            &&& v.proposals[id].approvals >= 1
        }),
{
    let v = LedgerView::blank(start).run(history);
    law_books_always_exact(start, history);
    assert(v.approvers(id).finite());
    assert(v.approvers(id).contains(v.proposals[id].proposer));
}

/// Requests are local. Where two ledgers agree on the configuration, the time,
/// the proposal that a request is about and its caller's approval of it, the
/// request is answered alike, asks for the same, and leaves them in agreement,
/// on a proposal that it makes too.
pub proof fn law_requests_are_local(
    v: LedgerView,
    w: LedgerView,
    request: Request,
    id: u64,
    who: Address,
)
    requires
        v.agrees_with(w, id, who),
        request.caller() is Some ==> request.caller() == Some(who),
        request is Approve ==> request->Approve_id == id,
        request is Execute ==> request->Execute_id == id,
    ensures
        v.refusal(request) == w.refusal(request),
        v.propose_outcome(who) == w.propose_outcome(who),
        v.approve_outcome(who, id) == w.approve_outcome(who, id),
        v.execute_outcome(who, id) == w.execute_outcome(who, id),
        v.after(request).agrees_with(w.after(request), id, who),
        v.after(request).effects.skip(v.effects.len() as int) == w.after(request).effects.skip(
            w.effects.len() as int,
        ),
        forall|made: u64| #[trigger]
            v.makes(request, made) ==> v.after(request).agrees_with(w.after(request), made, who),
{
    assert(v.after(request).effects.skip(v.effects.len() as int) =~= w.after(
        request,
    ).effects.skip(w.effects.len() as int));
}

/// A request touches no proposal but the one that it is about, and no approval
/// but its caller's of that one.
pub proof fn law_requests_touch_their_own(
    v: LedgerView,
    request: Request,
    other: u64,
    who: Address,
)
    ensures
        ({
            let about = v.makes(request, other) || (request is Approve && request->Approve_id
                == other) || (request is Execute && request->Execute_id == other);
            let w = v.after(request);
            &&& !about ==> (w.proposals.contains_key(other) <==> v.proposals.contains_key(other))
            &&& !about && v.proposals.contains_key(other) ==> w.proposals[other]
                == v.proposals[other]
            &&& !about || request.caller() != Some(who) ==> (w.approvals.contains((other, who))
                <==> v.approvals.contains((other, who)))
        }),
{
}

impl LedgerView {
    /// How many requests of a history make a proposal.
    pub open spec fn proposals_made(self, history: Seq<(u64, Request)>) -> nat
        decreases history.len(),
    {
        if history.len() == 0 {
            0
        } else {
            let v = self.run(history.drop_last()).at(history.last().0);
            let made: nat = if history.last().1 is Propose && v.refusal(history.last().1) is None {
                1
            } else {
                0
            };
            self.proposals_made(history.drop_last()) + made
        }
    }
}

/// The counter of a new contract is the number of proposals made in its
/// history; before setting up there are none.
pub proof fn law_counter_counts_proposals(start: u64, history: Seq<(u64, Request)>)
    ensures
        ({
            let blank = LedgerView::blank(start);
            blank.proposals_made(history) == (match blank.run(history).proposal_count {
                Some(count) => count as nat,
                None => 0,
            })
        }),
    decreases history.len(),
{
    if history.len() > 0 {
        law_counter_counts_proposals(start, history.drop_last());
        law_config_always_valid(start, history.drop_last());
    }
}

/// The counter of a new contract never falls over its history.
pub proof fn law_counter_is_monotonic_for_good(
    start: u64,
    history: Seq<(u64, Request)>,
    k: int,
)
    requires
        0 <= k <= history.len(),
        ledger_at(start, history, k).proposal_count is Some,
    ensures
        LedgerView::blank(start).run(history).proposal_count is Some,
        LedgerView::blank(start).run(history).proposal_count->0 >= ledger_at(
            start,
            history,
            k,
        ).proposal_count->0,
    decreases history.len(),
{
    if k == history.len() {
        assert(history.take(k) =~= history);
    } else {
        let shorter = history.drop_last();
        assert(shorter.take(k) =~= history.take(k));
        law_counter_is_monotonic_for_good(start, shorter, k);
        law_config_always_valid(start, shorter);
        law_counter_is_monotonic(
            LedgerView::blank(start).run(shorter).at(history.last().0),
            history.last().1,
        );
    }
}

/// A new contract that is set up at one place of its history stays set up for
/// the rest of it, and setting it up again is refused.
pub proof fn law_initialize_once_for_good(
    start: u64,
    history: Seq<(u64, Request)>,
    k: int,
    now: u64,
    signers: Seq<Address>,
    threshold: u32,
)
    requires
        0 <= k <= history.len(),
        ledger_at(start, history, k).threshold is Some,
    ensures
        LedgerView::blank(start).run(history).threshold is Some,
        LedgerView::blank(start).run(history).at(now).initialize_outcome(signers, threshold)
            == Err::<(), Error>(Error::AlreadyInitialized),
    decreases history.len(),
{
    if k == history.len() {
        assert(history.take(k) =~= history);
    } else {
        let shorter = history.drop_last();
        assert(shorter.take(k) =~= history.take(k));
        law_initialize_once_for_good(start, shorter, k, now, signers, threshold);
        law_initialize_once(
            LedgerView::blank(start).run(shorter).at(history.last().0),
            history.last().1,
            signers,
            threshold,
        );
    }
}

/// Whether the request at a place of a new contract's history turns the lock
/// off, by a signer of that moment.
pub open spec fn unlocks_at(start: u64, history: Seq<(u64, Request)>, k: int) -> bool {
    let v = ledger_at(start, history, k).at(history[k].0);
    let request = history[k].1;
    &&& request is SetEmergencyLock
    &&& !request->locked
    &&& v.has_signer(request.caller()->0)
    &&& v.refusal(request) is None
}

/// A new contract that is locked at one place of its history stays locked for
/// the rest of it, unless a signer turns the lock off in between.
pub proof fn law_lock_stays_on_for_good(start: u64, history: Seq<(u64, Request)>, k: int)
    requires
        0 <= k <= history.len(),
        ledger_at(start, history, k).locked(),
        forall|j: int| k <= j < history.len() ==> !#[trigger] unlocks_at(start, history, j),
    ensures
        LedgerView::blank(start).run(history).locked(),
    decreases history.len(),
{
    if k == history.len() {
        assert(history.take(k) =~= history);
    } else {
        let shorter = history.drop_last();
        let last = history.len() - 1;
        assert(shorter.take(k) =~= history.take(k));
        assert forall|j: int| k <= j < shorter.len() implies !#[trigger] unlocks_at(
            start,
            shorter,
            j,
        ) by {
            assert(shorter.take(j) =~= history.take(j));
            assert(!unlocks_at(start, history, j));
        }
        law_lock_stays_on_for_good(start, shorter, k);
        law_config_always_valid(start, shorter);
        assert(history.take(last) =~= shorter);
        assert(!unlocks_at(start, history, last));
        law_lock_stays_on(
            LedgerView::blank(start).run(shorter).at(history.last().0),
            history.last().1,
        );
    }
}

/// An approval that is given at one place of a new contract's history stands
/// for the rest of it, and whoever gave it cannot give it again.
pub proof fn law_one_approval_each_for_good(
    start: u64,
    history: Seq<(u64, Request)>,
    k: int,
    id: u64,
    who: Address,
)
    requires
        0 <= k <= history.len(),
        ledger_at(start, history, k).approvals.contains((id, who)),
    ensures
        LedgerView::blank(start).run(history).approvals.contains((id, who)),
        LedgerView::blank(start).run(history).approve_outcome(who, id) is Err,
    decreases history.len(),
{
    if k == history.len() {
        assert(history.take(k) =~= history);
    } else {
        let shorter = history.drop_last();
        assert(shorter.take(k) =~= history.take(k));
        law_one_approval_each_for_good(start, shorter, k, id, who);
        law_one_approval_each(
            LedgerView::blank(start).run(shorter).at(history.last().0),
            history.last().1,
            id,
            who,
        );
    }
}

} // verus!
