use astroid_multisig::address_list::{Address, AddressList};
use astroid_multisig::constants::{
    INSTANCE_BUMP_AMOUNT, INSTANCE_LIFETIME_THRESHOLD, MAX_SIGNERS, PERSISTENT_BUMP_AMOUNT,
    PERSISTENT_LIFETIME_THRESHOLD,
};
use astroid_multisig::errors::Error;
use astroid_multisig::ledger::{Effect, Event, Ledger};
use astroid_multisig::multisig::MultiSigContract;
use soroban_sdk::{Bytes, Env, Symbol};

const ANN: Address = (0, 0, 1);
const BOB: Address = (0, 0, 2);
const CAT: Address = (0, 1, 1);
const DAN: Address = (1, 0, 1);

const BUMP_INSTANCE: Effect = Effect::ExtendInstance {
    threshold: INSTANCE_LIFETIME_THRESHOLD,
    extend_to: INSTANCE_BUMP_AMOUNT,
};

fn bump_proposal(id: u64) -> Effect {
    Effect::ExtendProposal {
        id,
        threshold: PERSISTENT_LIFETIME_THRESHOLD,
        extend_to: PERSISTENT_BUMP_AMOUNT,
    }
}

fn list(env: &Env, addresses: &[Address]) -> AddressList {
    AddressList::from_vec(env, &addresses.to_vec())
}

fn signers(ledger: &Ledger) -> Vec<Address> {
    match MultiSigContract::get_signers(ledger) {
        Ok(list) => list.to_vec(),
        Err(e) => panic!("{:?}", e),
    }
}

/// A multisig of Ann, Bob and Cat that asks for two approvals.
fn two_of_three(env: &Env) -> Ledger {
    let mut ledger = Ledger::new(1_000);
    assert_eq!(
        MultiSigContract::initialize(&mut ledger, list(env, &[ANN, BOB, CAT]), 2),
        Ok(())
    );
    ledger.effects.clear();
    ledger
}

fn propose(env: &Env, ledger: &mut Ledger, who: Address, unlock_at: u64) -> Result<u64, Error> {
    MultiSigContract::propose(
        ledger,
        who,
        Symbol::new(env, "payment"),
        Bytes::from_slice(env, &[1, 2, 3]),
        unlock_at,
    )
}

#[test]
fn initialize_sets_everything_up() {
    let env = Env::default();
    let mut ledger = Ledger::new(0);
    assert_eq!(
        MultiSigContract::get_threshold(&ledger),
        Err(Error::NotInitialized)
    );
    assert!(matches!(
        MultiSigContract::get_signers(&ledger),
        Err(Error::NotInitialized)
    ));
    assert!(!MultiSigContract::is_signer(&ledger, ANN));
    assert!(!MultiSigContract::is_locked(&ledger));

    assert_eq!(
        MultiSigContract::initialize(&mut ledger, list(&env, &[BOB, ANN]), 2),
        Ok(())
    );
    assert_eq!(signers(&ledger), vec![BOB, ANN]);
    assert_eq!(MultiSigContract::get_threshold(&ledger), Ok(2));
    assert!(MultiSigContract::is_signer(&ledger, ANN));
    assert!(!MultiSigContract::is_signer(&ledger, CAT));
    assert!(!MultiSigContract::is_locked(&ledger));
    assert_eq!(ledger.emergency_lock, Some(false));
    assert_eq!(ledger.proposal_count, Some(0));
    assert_eq!(ledger.effects, vec![BUMP_INSTANCE]);
}

#[test]
fn initialize_works_once() {
    let env = Env::default();
    let mut ledger = two_of_three(&env);
    assert_eq!(
        MultiSigContract::initialize(&mut ledger, list(&env, &[DAN]), 1),
        Err(Error::AlreadyInitialized)
    );
    assert_eq!(signers(&ledger), vec![ANN, BOB, CAT]);
    assert_eq!(ledger.effects, vec![]);
}

#[test]
fn initialize_checks_its_arguments() {
    let env = Env::default();
    let mut ledger = Ledger::new(0);
    assert_eq!(
        MultiSigContract::initialize(&mut ledger, list(&env, &[]), 0),
        Err(Error::InvalidInput)
    );
    assert_eq!(
        MultiSigContract::initialize(&mut ledger, list(&env, &[ANN, BOB]), 0),
        Err(Error::InvalidThreshold)
    );
    assert_eq!(
        MultiSigContract::initialize(&mut ledger, list(&env, &[ANN, BOB]), 3),
        Err(Error::InvalidThreshold)
    );
    assert_eq!(
        MultiSigContract::initialize(&mut ledger, list(&env, &[ANN, BOB, ANN]), 2),
        Err(Error::InvalidInput)
    );
    // The threshold is looked at before the duplicates.
    assert_eq!(
        MultiSigContract::initialize(&mut ledger, list(&env, &[ANN, ANN]), 3),
        Err(Error::InvalidThreshold)
    );
    assert_eq!(ledger.threshold, None);
    assert_eq!(ledger.effects, vec![]);
}

#[test]
fn the_signer_set_is_bounded() {
    let env = Env::default();
    let full: Vec<Address> = (0..MAX_SIGNERS).map(|i| (i, 0, 0)).collect();
    let mut over = full.clone();
    over.push(ANN);

    let mut ledger = Ledger::new(0);
    assert_eq!(
        MultiSigContract::initialize(&mut ledger, list(&env, &over), 1),
        Err(Error::InvalidInput)
    );
    assert_eq!(
        MultiSigContract::initialize(&mut ledger, list(&env, &full), MAX_SIGNERS),
        Ok(())
    );
    assert_eq!(
        MultiSigContract::add_signer(&mut ledger, full[3], ANN),
        Err(Error::TooManySigners)
    );
    assert_eq!(
        MultiSigContract::add_signer(&mut ledger, full[3], full[0]),
        Err(Error::AlreadyExists)
    );
}

#[test]
fn nothing_works_before_initialize() {
    let env = Env::default();
    let mut ledger = Ledger::new(0);
    assert_eq!(
        MultiSigContract::add_signer(&mut ledger, ANN, BOB),
        Err(Error::NotInitialized)
    );
    assert_eq!(
        MultiSigContract::remove_signer(&mut ledger, ANN, BOB),
        Err(Error::NotInitialized)
    );
    assert_eq!(
        MultiSigContract::set_threshold(&mut ledger, ANN, 1),
        Err(Error::NotInitialized)
    );
    assert_eq!(
        MultiSigContract::set_emergency_lock(&mut ledger, ANN, true),
        Err(Error::NotInitialized)
    );
    assert_eq!(propose(&env, &mut ledger, ANN, 0), Err(Error::NotInitialized));
    assert_eq!(
        MultiSigContract::approve(&mut ledger, ANN, 1),
        Err(Error::NotInitialized)
    );
    assert_eq!(
        MultiSigContract::execute(&mut ledger, ANN, 1),
        Err(Error::NotInitialized)
    );
    assert_eq!(ledger.effects, vec![Effect::RequireAuth { who: ANN }; 7]);
}

#[test]
fn partly_stored_configuration_is_not_initialized() {
    let env = Env::default();
    let mut ledger = two_of_three(&env);
    assert_eq!(propose(&env, &mut ledger, ANN, 0), Ok(1));
    ledger.threshold = None;
    assert_eq!(
        MultiSigContract::execute(&mut ledger, ANN, 1),
        Err(Error::NotInitialized)
    );
    assert_eq!(
        MultiSigContract::remove_signer(&mut ledger, ANN, BOB),
        Err(Error::NotInitialized)
    );
    ledger.proposal_count = None;
    assert_eq!(propose(&env, &mut ledger, ANN, 0), Err(Error::NotInitialized));
}

#[test]
fn a_signer_is_added_last() {
    let env = Env::default();
    let mut ledger = two_of_three(&env);
    assert_eq!(MultiSigContract::add_signer(&mut ledger, BOB, DAN), Ok(()));
    assert_eq!(signers(&ledger), vec![ANN, BOB, CAT, DAN]);
    assert!(MultiSigContract::is_signer(&ledger, DAN));
    assert_eq!(
        ledger.effects,
        vec![
            Effect::RequireAuth { who: BOB },
            BUMP_INSTANCE,
            Effect::Publish {
                event: Event::SignerAdded { signer: DAN }
            },
        ]
    );
}

#[test]
fn a_signer_is_removed_in_place() {
    let env = Env::default();
    let mut ledger = two_of_three(&env);
    assert_eq!(
        MultiSigContract::remove_signer(&mut ledger, CAT, BOB),
        Ok(())
    );
    assert_eq!(signers(&ledger), vec![ANN, CAT]);
    assert!(!MultiSigContract::is_signer(&ledger, BOB));
    assert_eq!(
        ledger.effects,
        vec![
            Effect::RequireAuth { who: CAT },
            BUMP_INSTANCE,
            Effect::Publish {
                event: Event::SignerRemoved { signer: BOB }
            },
        ]
    );
}

#[test]
fn a_signer_can_remove_itself() {
    let env = Env::default();
    let mut ledger = two_of_three(&env);
    assert_eq!(
        MultiSigContract::remove_signer(&mut ledger, ANN, ANN),
        Ok(())
    );
    assert_eq!(signers(&ledger), vec![BOB, CAT]);
}

#[test]
fn signers_never_fall_below_the_threshold() {
    let env = Env::default();
    let mut ledger = two_of_three(&env);
    assert_eq!(
        MultiSigContract::remove_signer(&mut ledger, ANN, BOB),
        Ok(())
    );
    assert_eq!(
        MultiSigContract::remove_signer(&mut ledger, ANN, CAT),
        Err(Error::InvalidThreshold)
    );
    assert_eq!(
        MultiSigContract::remove_signer(&mut ledger, ANN, DAN),
        Err(Error::NotASigner)
    );
    assert_eq!(MultiSigContract::set_threshold(&mut ledger, ANN, 1), Ok(()));
    assert_eq!(
        MultiSigContract::remove_signer(&mut ledger, ANN, CAT),
        Ok(())
    );
    assert_eq!(
        MultiSigContract::remove_signer(&mut ledger, ANN, ANN),
        Err(Error::InvalidThreshold)
    );
    assert_eq!(signers(&ledger), vec![ANN]);
}

#[test]
fn adding_and_removing_undo_each_other() {
    let env = Env::default();
    let mut ledger = two_of_three(&env);
    assert_eq!(MultiSigContract::add_signer(&mut ledger, ANN, DAN), Ok(()));
    assert_eq!(
        MultiSigContract::remove_signer(&mut ledger, ANN, DAN),
        Ok(())
    );
    assert_eq!(signers(&ledger), vec![ANN, BOB, CAT]);
    assert_eq!(
        MultiSigContract::remove_signer(&mut ledger, ANN, BOB),
        Ok(())
    );
    assert_eq!(MultiSigContract::add_signer(&mut ledger, ANN, BOB), Ok(()));
    assert_eq!(signers(&ledger), vec![ANN, CAT, BOB]);
}

#[test]
fn the_threshold_stays_in_range() {
    let env = Env::default();
    let mut ledger = two_of_three(&env);
    assert_eq!(
        MultiSigContract::set_threshold(&mut ledger, ANN, 0),
        Err(Error::InvalidThreshold)
    );
    assert_eq!(
        MultiSigContract::set_threshold(&mut ledger, ANN, 4),
        Err(Error::InvalidThreshold)
    );
    assert_eq!(MultiSigContract::get_threshold(&ledger), Ok(2));
    ledger.effects.clear();
    assert_eq!(MultiSigContract::set_threshold(&mut ledger, ANN, 3), Ok(()));
    assert_eq!(MultiSigContract::get_threshold(&ledger), Ok(3));
    assert_eq!(
        ledger.effects,
        vec![
            Effect::RequireAuth { who: ANN },
            BUMP_INSTANCE,
            Effect::Publish {
                event: Event::ThresholdChanged { threshold: 3 }
            },
        ]
    );
}

#[test]
fn outsiders_are_refused() {
    let env = Env::default();
    let mut ledger = two_of_three(&env);
    assert_eq!(propose(&env, &mut ledger, ANN, 0), Ok(1));
    ledger.effects.clear();
    assert_eq!(
        MultiSigContract::add_signer(&mut ledger, DAN, DAN),
        Err(Error::NotASigner)
    );
    assert_eq!(
        MultiSigContract::remove_signer(&mut ledger, DAN, ANN),
        Err(Error::NotASigner)
    );
    assert_eq!(
        MultiSigContract::set_threshold(&mut ledger, DAN, 1),
        Err(Error::NotASigner)
    );
    assert_eq!(
        MultiSigContract::set_emergency_lock(&mut ledger, DAN, true),
        Err(Error::NotASigner)
    );
    assert_eq!(propose(&env, &mut ledger, DAN, 0), Err(Error::NotASigner));
    assert_eq!(
        MultiSigContract::approve(&mut ledger, DAN, 1),
        Err(Error::NotASigner)
    );
    assert_eq!(
        MultiSigContract::execute(&mut ledger, DAN, 1),
        Err(Error::NotASigner)
    );
    assert_eq!(signers(&ledger), vec![ANN, BOB, CAT]);
    assert_eq!(ledger.approvals, vec![(1, ANN)]);
    assert_eq!(ledger.effects, vec![Effect::RequireAuth { who: DAN }; 7]);
}

#[test]
fn the_lock_stops_proposals_and_nothing_else() {
    let env = Env::default();
    let mut ledger = two_of_three(&env);
    assert_eq!(propose(&env, &mut ledger, ANN, 0), Ok(1));
    ledger.effects.clear();
    assert_eq!(
        MultiSigContract::set_emergency_lock(&mut ledger, BOB, true),
        Ok(())
    );
    assert!(MultiSigContract::is_locked(&ledger));
    assert_eq!(
        ledger.effects,
        vec![
            Effect::RequireAuth { who: BOB },
            BUMP_INSTANCE,
            Effect::Publish {
                event: Event::EmergencyLock { locked: true }
            },
        ]
    );

    ledger.effects.clear();
    assert_eq!(propose(&env, &mut ledger, ANN, 0), Err(Error::EmergencyLock));
    assert_eq!(
        MultiSigContract::approve(&mut ledger, BOB, 1),
        Err(Error::EmergencyLock)
    );
    assert_eq!(
        MultiSigContract::execute(&mut ledger, BOB, 1),
        Err(Error::EmergencyLock)
    );
    // The lock is looked at before anything is asked of the caller.
    assert_eq!(
        MultiSigContract::approve(&mut ledger, DAN, 9),
        Err(Error::EmergencyLock)
    );
    assert_eq!(ledger.effects, vec![]);

    assert_eq!(MultiSigContract::add_signer(&mut ledger, ANN, DAN), Ok(()));
    assert_eq!(
        MultiSigContract::set_emergency_lock(&mut ledger, DAN, false),
        Ok(())
    );
    assert!(!MultiSigContract::is_locked(&ledger));
    assert_eq!(MultiSigContract::approve(&mut ledger, BOB, 1), Ok(2));
    assert_eq!(propose(&env, &mut ledger, CAT, 0), Ok(2));
}

#[test]
fn a_proposal_is_stored_as_made() {
    let env = Env::default();
    let mut ledger = two_of_three(&env);
    assert_eq!(propose(&env, &mut ledger, ANN, 1_500), Ok(1));
    assert_eq!(
        ledger.effects,
        vec![
            Effect::RequireAuth { who: ANN },
            bump_proposal(1),
            BUMP_INSTANCE,
            Effect::Publish {
                event: Event::ProposalCreated {
                    id: 1,
                    proposer: ANN
                }
            },
        ]
    );
    assert_eq!(propose(&env, &mut ledger, BOB, 0), Ok(2));
    assert_eq!(ledger.proposal_count, Some(2));

    match MultiSigContract::get_proposal(&ledger, 1) {
        Ok(p) => {
            assert_eq!(p.proposer, ANN);
            assert_eq!(p.action, Symbol::new(&env, "payment"));
            assert_eq!(p.payload, Bytes::from_slice(&env, &[1, 2, 3]));
            assert_eq!(p.approvals, 1);
            assert!(!p.executed);
            assert_eq!(p.unlock_at, 1_500);
        }
        Err(e) => panic!("{:?}", e),
    }
    assert!(matches!(
        MultiSigContract::get_proposal(&ledger, 3),
        Err(Error::NotFound)
    ));
    assert!(ledger.has_approved(1, ANN));
    assert!(!ledger.has_approved(1, BOB));
    assert!(ledger.has_approved(2, BOB));
}

#[test]
fn approvals_count_each_signer_once() {
    let env = Env::default();
    let mut ledger = two_of_three(&env);
    assert_eq!(propose(&env, &mut ledger, ANN, 0), Ok(1));
    assert_eq!(
        MultiSigContract::approve(&mut ledger, ANN, 1),
        Err(Error::AlreadySigned)
    );
    ledger.effects.clear();
    assert_eq!(MultiSigContract::approve(&mut ledger, BOB, 1), Ok(2));
    assert_eq!(
        ledger.effects,
        vec![
            Effect::RequireAuth { who: BOB },
            bump_proposal(1),
            Effect::Publish {
                event: Event::ProposalApproved {
                    id: 1,
                    signer: BOB,
                    approvals: 2
                }
            },
        ]
    );
    assert_eq!(
        MultiSigContract::approve(&mut ledger, BOB, 1),
        Err(Error::AlreadySigned)
    );
    assert_eq!(MultiSigContract::approve(&mut ledger, CAT, 1), Ok(3));
    assert_eq!(
        MultiSigContract::approve(&mut ledger, CAT, 2),
        Err(Error::NotFound)
    );
    assert_eq!(ledger.approvals, vec![(1, ANN), (1, BOB), (1, CAT)]);
}

#[test]
fn approvals_are_kept_apart_by_proposal() {
    let env = Env::default();
    let mut ledger = two_of_three(&env);
    assert_eq!(propose(&env, &mut ledger, ANN, 0), Ok(1));
    assert_eq!(propose(&env, &mut ledger, ANN, 0), Ok(2));
    assert_eq!(MultiSigContract::approve(&mut ledger, BOB, 2), Ok(2));
    assert_eq!(
        MultiSigContract::execute(&mut ledger, ANN, 1),
        Err(Error::ThresholdNotMet)
    );
    assert_eq!(MultiSigContract::execute(&mut ledger, ANN, 2), Ok(()));
}

#[test]
fn execution_needs_the_threshold() {
    let env = Env::default();
    let mut ledger = two_of_three(&env);
    assert_eq!(propose(&env, &mut ledger, ANN, 0), Ok(1));
    assert_eq!(
        MultiSigContract::execute(&mut ledger, ANN, 1),
        Err(Error::ThresholdNotMet)
    );
    assert_eq!(
        MultiSigContract::execute(&mut ledger, ANN, 7),
        Err(Error::NotFound)
    );
    assert_eq!(MultiSigContract::approve(&mut ledger, BOB, 1), Ok(2));
    ledger.effects.clear();
    assert_eq!(MultiSigContract::execute(&mut ledger, CAT, 1), Ok(()));
    assert_eq!(
        ledger.effects,
        vec![
            Effect::RequireAuth { who: CAT },
            bump_proposal(1),
            Effect::Publish {
                event: Event::ProposalExecuted { id: 1 }
            },
        ]
    );
    match MultiSigContract::get_proposal(&ledger, 1) {
        Ok(p) => {
            assert!(p.executed);
            assert_eq!(p.approvals, 2);
        }
        Err(e) => panic!("{:?}", e),
    }
}

#[test]
fn execution_is_final() {
    let env = Env::default();
    let mut ledger = two_of_three(&env);
    assert_eq!(propose(&env, &mut ledger, ANN, 0), Ok(1));
    assert_eq!(MultiSigContract::approve(&mut ledger, BOB, 1), Ok(2));
    assert_eq!(MultiSigContract::execute(&mut ledger, ANN, 1), Ok(()));
    assert_eq!(
        MultiSigContract::execute(&mut ledger, ANN, 1),
        Err(Error::InvalidProposalState)
    );
    assert_eq!(
        MultiSigContract::approve(&mut ledger, CAT, 1),
        Err(Error::InvalidProposalState)
    );
}

#[test]
fn execution_waits_for_the_time_lock() {
    let env = Env::default();
    let mut ledger = two_of_three(&env);
    assert_eq!(propose(&env, &mut ledger, ANN, 1_001), Ok(1));
    // Too few approvals are reported before the time lock.
    assert_eq!(
        MultiSigContract::execute(&mut ledger, ANN, 1),
        Err(Error::ThresholdNotMet)
    );
    assert_eq!(MultiSigContract::approve(&mut ledger, BOB, 1), Ok(2));
    assert_eq!(
        MultiSigContract::execute(&mut ledger, ANN, 1),
        Err(Error::TimeLocked)
    );
    ledger.timestamp = 1_001;
    assert_eq!(MultiSigContract::execute(&mut ledger, ANN, 1), Ok(()));
}

#[test]
fn the_threshold_of_the_moment_decides() {
    let env = Env::default();
    let mut ledger = two_of_three(&env);
    assert_eq!(propose(&env, &mut ledger, ANN, 0), Ok(1));
    assert_eq!(MultiSigContract::approve(&mut ledger, BOB, 1), Ok(2));
    assert_eq!(MultiSigContract::set_threshold(&mut ledger, ANN, 3), Ok(()));
    assert_eq!(
        MultiSigContract::execute(&mut ledger, ANN, 1),
        Err(Error::ThresholdNotMet)
    );
    // With every signer's approval the threshold is always met.
    assert_eq!(MultiSigContract::approve(&mut ledger, CAT, 1), Ok(3));
    assert_eq!(MultiSigContract::execute(&mut ledger, ANN, 1), Ok(()));
}

#[test]
fn approvals_outlast_their_signers() {
    let env = Env::default();
    let mut ledger = two_of_three(&env);
    assert_eq!(propose(&env, &mut ledger, ANN, 0), Ok(1));
    assert_eq!(
        MultiSigContract::remove_signer(&mut ledger, BOB, ANN),
        Ok(())
    );
    assert_eq!(
        MultiSigContract::approve(&mut ledger, ANN, 1),
        Err(Error::NotASigner)
    );
    assert_eq!(MultiSigContract::approve(&mut ledger, BOB, 1), Ok(2));
    assert_eq!(MultiSigContract::execute(&mut ledger, CAT, 1), Ok(()));
}

#[test]
fn full_counters_refuse() {
    let env = Env::default();
    let mut ledger = two_of_three(&env);
    ledger.proposal_count = Some(u64::MAX - 1);
    assert_eq!(propose(&env, &mut ledger, ANN, 0), Ok(u64::MAX));
    ledger.effects.clear();
    assert_eq!(propose(&env, &mut ledger, ANN, 0), Err(Error::Overflow));
    assert_eq!(ledger.proposal_count, Some(u64::MAX));
    assert_eq!(ledger.proposals.len(), 1);
    assert_eq!(ledger.approvals, vec![(u64::MAX, ANN)]);
    assert_eq!(ledger.effects, vec![Effect::RequireAuth { who: ANN }]);

    if let Some(p) = ledger.proposals.get_mut(&u64::MAX) {
        p.approvals = u32::MAX - 1;
    }
    assert_eq!(
        MultiSigContract::approve(&mut ledger, BOB, u64::MAX),
        Ok(u32::MAX)
    );
    ledger.effects.clear();
    assert_eq!(
        MultiSigContract::approve(&mut ledger, CAT, u64::MAX),
        Err(Error::Overflow)
    );
    // A second approval is reported before the full counter.
    assert_eq!(
        MultiSigContract::approve(&mut ledger, BOB, u64::MAX),
        Err(Error::AlreadySigned)
    );
    match MultiSigContract::get_proposal(&ledger, u64::MAX) {
        Ok(p) => assert_eq!(p.approvals, u32::MAX),
        Err(e) => panic!("{:?}", e),
    }
    assert_eq!(ledger.approvals, vec![(u64::MAX, ANN), (u64::MAX, BOB)]);
    assert_eq!(
        ledger.effects,
        vec![
            Effect::RequireAuth { who: CAT },
            Effect::RequireAuth { who: BOB },
        ]
    );
}

#[test]
fn an_executed_proposal_outlasts_everything() {
    let env = Env::default();
    let mut ledger = two_of_three(&env);
    assert_eq!(propose(&env, &mut ledger, ANN, 0), Ok(1));
    assert_eq!(MultiSigContract::approve(&mut ledger, BOB, 1), Ok(2));
    assert_eq!(MultiSigContract::execute(&mut ledger, ANN, 1), Ok(()));
    assert_eq!(MultiSigContract::set_threshold(&mut ledger, ANN, 3), Ok(()));
    assert_eq!(MultiSigContract::add_signer(&mut ledger, ANN, DAN), Ok(()));
    assert_eq!(propose(&env, &mut ledger, DAN, 0), Ok(2));
    ledger.timestamp = 9_999;
    assert_eq!(
        MultiSigContract::approve(&mut ledger, DAN, 1),
        Err(Error::InvalidProposalState)
    );
    // Also for a signer that approved before.
    assert_eq!(
        MultiSigContract::approve(&mut ledger, BOB, 1),
        Err(Error::InvalidProposalState)
    );
    assert_eq!(
        MultiSigContract::execute(&mut ledger, DAN, 1),
        Err(Error::InvalidProposalState)
    );
    match MultiSigContract::get_proposal(&ledger, 1) {
        Ok(p) => assert!(p.executed && p.approvals == 2 && p.proposer == ANN),
        Err(e) => panic!("{:?}", e),
    }
}

#[test]
fn the_lock_stays_on_until_it_is_turned_off() {
    let env = Env::default();
    let mut ledger = two_of_three(&env);
    assert_eq!(
        MultiSigContract::set_emergency_lock(&mut ledger, ANN, true),
        Ok(())
    );
    assert_eq!(MultiSigContract::set_threshold(&mut ledger, BOB, 1), Ok(()));
    assert_eq!(MultiSigContract::remove_signer(&mut ledger, BOB, ANN), Ok(()));
    assert_eq!(
        MultiSigContract::initialize(&mut ledger, list(&env, &[DAN]), 1),
        Err(Error::AlreadyInitialized)
    );
    assert_eq!(
        MultiSigContract::set_emergency_lock(&mut ledger, DAN, false),
        Err(Error::NotASigner)
    );
    assert!(MultiSigContract::is_locked(&ledger));
}

#[test]
fn the_counter_is_the_number_of_proposals() {
    let env = Env::default();
    let mut ledger = two_of_three(&env);
    for (made, who) in [ANN, DAN, BOB, DAN, ANN].into_iter().enumerate() {
        let _ = propose(&env, &mut ledger, who, made as u64);
    }
    assert_eq!(ledger.proposal_count, Some(3));
    assert_eq!(
        ledger.proposals.keys().copied().collect::<Vec<u64>>(),
        vec![1, 2, 3]
    );
}

#[test]
fn a_request_needs_only_its_own_proposal() {
    let env = Env::default();
    let mut whole = two_of_three(&env);
    assert_eq!(propose(&env, &mut whole, ANN, 0), Ok(1));
    assert_eq!(propose(&env, &mut whole, BOB, 0), Ok(2));
    let mut part = two_of_three(&env);
    assert_eq!(propose(&env, &mut part, ANN, 0), Ok(1));
    part.proposal_count = Some(2);
    whole.effects.clear();
    part.effects.clear();

    for ledger in [&mut whole, &mut part] {
        assert_eq!(MultiSigContract::approve(ledger, CAT, 1), Ok(2));
        assert_eq!(MultiSigContract::execute(ledger, CAT, 1), Ok(()));
    }
    assert_eq!(whole.effects, part.effects);
    assert_eq!(whole.proposals.get(&1).map(|p| p.executed), Some(true));
    assert_eq!(part.proposals.get(&1).map(|p| p.executed), Some(true));
    assert_eq!(whole.proposals.get(&2).map(|p| p.approvals), Some(1));
    assert_eq!(whole.approvals, vec![(1, ANN), (2, BOB), (1, CAT)]);
    assert_eq!(part.approvals, vec![(1, ANN), (1, CAT)]);
}

#[test]
fn events_have_two_topics() {
    let topics = |event: Event| event.topics();
    assert_eq!(topics(Event::SignerAdded { signer: ANN }), ("signer", "added"));
    assert_eq!(
        topics(Event::SignerRemoved { signer: ANN }),
        ("signer", "removed")
    );
    assert_eq!(
        topics(Event::ThresholdChanged { threshold: 1 }),
        ("threshold", "changed")
    );
    assert_eq!(
        topics(Event::EmergencyLock { locked: true }),
        ("emergency", "lock")
    );
    assert_eq!(
        topics(Event::ProposalCreated {
            id: 1,
            proposer: ANN
        }),
        ("proposal", "created")
    );
    assert_eq!(
        topics(Event::ProposalApproved {
            id: 1,
            signer: ANN,
            approvals: 2
        }),
        ("proposal", "approved")
    );
    assert_eq!(
        topics(Event::ProposalExecuted { id: 1 }),
        ("proposal", "executed")
    );
}
