use did_governance::action::{ActionKind, PackedDocument, UpdateDidDocument};
use did_governance::applier::{apply_approve, apply_create, apply_execute};
use did_governance::committee::{
    all_distinct, checked_total_weight, contains_id, members_distinct, Controller,
};
use did_governance::error::GovernanceError;
use did_governance::identity::{ControllerToken, OnChainIdentity};
use did_governance::ledger::{check_lapse, ExecutionStatus, LedgerState, TransactionEffects};
use did_governance::object_id::{copy_ids, ObjectId};
use did_governance::proposal::{ExecutionSummary, Proposal, ProposalResult};
use did_governance::update_did::{
    WasmExecuteUpdateDidDocumentProposal, WasmProposalUpdateDid, WasmUpdateDid,
};

fn oid(n: u128) -> ObjectId {
    ObjectId::new(n, n + 1)
}

fn member(n: u128, weight: u64) -> Controller {
    Controller { id: oid(n), weight }
}

fn identity(threshold: u64) -> OnChainIdentity {
    let committee = vec![member(1, 2), member(2, 3), member(3, 5)];
    OnChainIdentity::new(oid(100), committee, threshold, Some(vec![1]), false).unwrap()
}

fn token(controller: u128) -> ControllerToken {
    ControllerToken::new(oid(controller), oid(100))
}

#[test]
fn identifiers_are_equal_when_both_halves_are() {
    assert!(ObjectId::new(1, 2).same(&ObjectId::new(1, 2)));
    assert!(!ObjectId::new(1, 2).same(&ObjectId::new(2, 1)));
    assert!(!ObjectId::new(1, 2).same(&ObjectId::new(1, 3)));
    assert!(!ObjectId::new(1, 2).same(&ObjectId::new(0, 2)));
    assert_eq!(ObjectId::new(1, 2), ObjectId { hi: 1, lo: 2 });
    let ids = vec![oid(1), oid(2), oid(3)];
    assert_eq!(copy_ids(&ids), ids);
    assert_eq!(copy_ids(&vec![]), vec![]);
}

#[test]
fn membership_and_distinctness_of_identifiers() {
    let ids = vec![oid(1), oid(2), oid(3)];
    assert!(contains_id(&ids, &oid(3)));
    assert!(contains_id(&ids, &oid(1)));
    assert!(!contains_id(&ids, &oid(4)));
    assert!(!contains_id(&vec![], &oid(1)));
    assert!(all_distinct(&ids));
    assert!(all_distinct(&vec![]));
    assert!(!all_distinct(&vec![oid(1), oid(2), oid(1)]));
    assert!(!all_distinct(&vec![oid(2), oid(2)]));
    assert!(members_distinct(&vec![member(1, 1), member(2, 1)]));
    assert!(!members_distinct(&vec![member(1, 1), member(2, 1), member(1, 9)]));
}

#[test]
fn weight_of_a_committee() {
    assert_eq!(checked_total_weight(&vec![]), Some(0));
    assert_eq!(checked_total_weight(&vec![member(1, 2), member(2, 3), member(3, 5)]), Some(10));
    assert_eq!(checked_total_weight(&vec![member(1, u64::MAX)]), Some(u64::MAX));
    assert_eq!(checked_total_weight(&vec![member(1, u64::MAX), member(2, 0)]), Some(u64::MAX));
    assert_eq!(checked_total_weight(&vec![member(1, u64::MAX), member(2, 1)]), None);
    assert_eq!(checked_total_weight(&vec![member(1, 1), member(2, u64::MAX), member(3, 0)]), None);
}

#[test]
fn identity_is_mirrored_as_it_was_read() {
    let identity = identity(4);
    assert_eq!(identity.id(), oid(100));
    assert_eq!(identity.threshold(), 4);
    assert_eq!(identity.controllers(), &vec![member(1, 2), member(2, 3), member(3, 5)]);
    assert_eq!(identity.did_document(), Some(&vec![1]));
    assert!(!identity.has_been_deleted());
    assert_eq!(identity.controller_voting_power(oid(1)), Some(2));
    assert_eq!(identity.controller_voting_power(oid(3)), Some(5));
    assert_eq!(identity.controller_voting_power(oid(4)), None);
    assert!(identity.admits(&token(2)));
    assert!(!identity.admits(&token(4)));
    assert!(!identity.admits(&ControllerToken::new(oid(2), oid(101))));
    let gone = OnChainIdentity::new(oid(100), vec![member(1, 1)], 1, None, true).unwrap();
    assert!(gone.has_been_deleted());
    assert!(!gone.admits(&token(1)));
}

#[test]
fn identity_needs_distinct_controllers_and_a_weight_that_fits() {
    assert!(OnChainIdentity::new(oid(1), vec![], 0, None, false).is_some());
    assert!(OnChainIdentity::new(oid(1), vec![member(1, 1), member(1, 2)], 1, None, false)
        .is_none());
    assert!(OnChainIdentity::new(oid(1), vec![member(1, u64::MAX), member(2, 1)], 1, None, false)
        .is_none());
    assert!(OnChainIdentity::new(
        oid(1),
        vec![member(1, u64::MAX - 1), member(2, 1)],
        1,
        None,
        false,
    )
        .is_some());
}

#[test]
fn token_names_its_controller_and_its_identity() {
    let token = ControllerToken::new(oid(1), oid(2));
    assert_eq!(token.controller_id(), oid(1));
    assert_eq!(token.controller_of(), oid(2));
}

#[test]
fn actions_are_told_apart_by_their_kind() {
    let update = WasmUpdateDid(UpdateDidDocument::new(vec![3, 4]).unwrap());
    assert!(!update.is_deactivation());
    assert_eq!(update.did_document(), Some(vec![3, 4]));
    assert_eq!(update.0.kind(), ActionKind::Update);
    let deactivate = WasmUpdateDid(UpdateDidDocument::deactivate());
    assert!(deactivate.is_deactivation());
    assert_eq!(deactivate.did_document(), None);
    assert_eq!(deactivate.0.kind(), ActionKind::Deactivate);
    assert_eq!(deactivate.0.did_document_bytes(), None);
    let delete = WasmUpdateDid(UpdateDidDocument::delete());
    assert!(!delete.is_deactivation());
    assert_eq!(delete.did_document(), None);
    assert_eq!(delete.0.kind(), ActionKind::Delete);
    let copy = update.0.duplicate();
    assert_eq!(copy.did_document_bytes(), Some(&vec![3, 4]));
    copy.note_well_formed();
}

#[test]
fn packed_document_keeps_its_bytes() {
    let document = PackedDocument::new(vec![9, 8, 7]).unwrap();
    assert_eq!(document.as_bytes(), &vec![9, 8, 7]);
    assert_eq!(document.duplicate().as_bytes(), &vec![9, 8, 7]);
    assert_eq!(document.into_bytes(), vec![9, 8, 7]);
}

#[test]
fn proposal_is_mirrored_with_the_votes_of_its_voters() {
    let identity = identity(4);
    let proposal =
        Proposal::new(oid(7), UpdateDidDocument::delete(), Some(3), vec![oid(3), oid(1)], &identity)
            .unwrap();
    assert_eq!(proposal.id(), oid(7));
    assert_eq!(proposal.expiration_epoch(), Some(3));
    assert_eq!(proposal.votes(), 7);
    assert_eq!(proposal.voters(), &vec![oid(3), oid(1)]);
    assert_eq!(proposal.action().kind(), ActionKind::Delete);
    let copy = proposal.duplicate();
    assert_eq!(copy.id(), oid(7));
    assert_eq!(copy.votes(), 7);
    assert_eq!(copy.voters(), &vec![oid(3), oid(1)]);
    let handle = WasmProposalUpdateDid(copy);
    assert_eq!(handle.id(), oid(7));
    assert_eq!(handle.votes(), 7);
    assert_eq!(handle.voters(), vec![oid(3), oid(1)]);
    assert_eq!(handle.expiration_epoch(), Some(3));
    assert_eq!(handle.action().0.kind(), ActionKind::Delete);

    // A voter that has left the committee counts for nothing.
    let with_stranger =
        Proposal::new(oid(7), UpdateDidDocument::delete(), None, vec![oid(9), oid(2)], &identity)
            .unwrap();
    assert_eq!(with_stranger.votes(), 3);
    let nobody = Proposal::new(
        oid(7),
        UpdateDidDocument::delete(),
        None,
        vec![],
        &identity,
    ).unwrap();
    assert_eq!(nobody.votes(), 0);
    assert!(Proposal::new(
        oid(7),
        UpdateDidDocument::delete(),
        None,
        vec![oid(1), oid(1)],
        &identity,
    )
        .is_none());
}

#[test]
fn votes_are_the_sum_of_the_weights_after_every_vote() {
    let mut identity = identity(100);
    let ledger = LedgerState::at_epoch(0);
    let mut effects = TransactionEffects::new(ExecutionStatus::Success, vec![oid(7)], vec![]);
    let created = apply_create(
        UpdateDidDocument::deactivate(),
        None,
        &mut identity,
        &token(2),
        &mut effects,
    );
    let mut proposal = match created {
        Ok(ProposalResult::Pending(proposal)) => proposal,
        _ => panic!("the proposal is pending"),
    };
    assert_eq!(proposal.votes(), 3);
    assert_eq!(proposal.voters(), &vec![oid(2)]);
    assert_eq!(
        apply_approve(&mut proposal, &mut identity, &token(3), &ledger, &mut effects),
        Ok(None),
    );
    assert_eq!(proposal.votes(), 3 + 5);
    assert_eq!(proposal.voters(), &vec![oid(2), oid(3)]);
    assert_eq!(
        apply_approve(&mut proposal, &mut identity, &token(1), &ledger, &mut effects),
        Ok(None),
    );
    assert_eq!(proposal.votes(), 3 + 5 + 2);
    assert_eq!(proposal.voters(), &vec![oid(2), oid(3), oid(1)]);
    assert_eq!(proposal.action().kind(), ActionKind::Deactivate);
    assert_eq!(proposal.id(), oid(7));
    assert_eq!(identity.did_document(), Some(&vec![1]));
}

#[test]
fn votes_are_counted_by_the_committee_as_it_stands() {
    let ledger = LedgerState::at_epoch(0);
    let before = identity(6);
    let mut proposal =
        Proposal::new(
            oid(7),
            UpdateDidDocument::deactivate(),
            None,
            vec![oid(3)],
            &before,
        ).unwrap();
    assert_eq!(proposal.votes(), 5);

    // The committee has changed since: the first voter now weighs less.
    let committee = vec![member(1, 2), member(2, 3), member(3, 1)];
    let mut now = OnChainIdentity::new(oid(100), committee, 6, Some(vec![1]), false).unwrap();
    assert_eq!(proposal.check_approve(&now, &token(2), &ledger), Ok(false));
    let mut effects = TransactionEffects::new(ExecutionStatus::Success, vec![], vec![]);
    assert_eq!(apply_approve(&mut proposal, &mut now, &token(2), &ledger, &mut effects), Ok(None));
    assert_eq!(proposal.votes(), 4);
    assert_eq!(
        proposal.check_execute(&now, &token(1), &ledger),
        Err(GovernanceError::ThresholdNotMet)
    );
    // With the third vote the threshold is reached.
    assert_eq!(proposal.check_approve(&now, &token(1), &ledger), Ok(true));
}

#[test]
fn vote_that_reaches_the_threshold_executes() {
    let mut identity = identity(5);
    let ledger = LedgerState::at_epoch(0);
    let mut proposal = Proposal::new(
        oid(7),
        UpdateDidDocument::new(vec![6, 6, 6]).unwrap(),
        None,
        vec![oid(1)],
        &identity,
    )
    .unwrap();
    let mut effects = TransactionEffects::new(
        ExecutionStatus::Success,
        vec![],
        vec![oid(7), oid(8)],
    );
    let summary = apply_approve(&mut proposal, &mut identity, &token(2), &ledger, &mut effects);
    assert_eq!(
        summary,
        Ok(Some(ExecutionSummary { identity: oid(100), action: ActionKind::Update }))
    );
    assert_eq!(proposal.votes(), 5);
    assert_eq!(proposal.voters(), &vec![oid(1), oid(2)]);
    assert_eq!(identity.did_document(), Some(&vec![6, 6, 6]));
    assert_eq!(effects.deleted, vec![oid(8)]);
}

#[test]
fn each_action_changes_what_it_says_and_nothing_else() {
    let ledger = LedgerState::at_epoch(0);
    let committee = vec![member(1, 2), member(2, 3), member(3, 5)];

    let mut identity = identity(5);
    let update = Proposal::new(
        oid(7),
        UpdateDidDocument::new(vec![4, 2]).unwrap(),
        None,
        vec![oid(3)],
        &identity,
    )
    .unwrap();
    let mut effects = TransactionEffects::new(ExecutionStatus::Success, vec![], vec![]);
    assert_eq!(
        apply_execute(update, &mut identity, &token(1), &ledger, &mut effects),
        Ok(ExecutionSummary { identity: oid(100), action: ActionKind::Update })
    );
    assert_eq!(identity.did_document(), Some(&vec![4, 2]));
    assert!(!identity.has_been_deleted());
    assert_eq!(identity.controllers(), &committee);
    assert_eq!(identity.threshold(), 5);
    assert_eq!(identity.id(), oid(100));

    let deactivate =
        Proposal::new(
            oid(8),
            UpdateDidDocument::deactivate(),
            None,
            vec![oid(3)],
            &identity,
        ).unwrap();
    assert_eq!(
        apply_execute(deactivate, &mut identity, &token(1), &ledger, &mut effects),
        Ok(ExecutionSummary { identity: oid(100), action: ActionKind::Deactivate })
    );
    assert_eq!(identity.did_document(), None);
    assert!(!identity.has_been_deleted());
    assert_eq!(identity.controllers(), &committee);
    assert_eq!(identity.threshold(), 5);

    // A deactivated identity can be updated again.
    let revive = Proposal::new(
        oid(9),
        UpdateDidDocument::new(vec![1, 2, 3]).unwrap(),
        None,
        vec![oid(3)],
        &identity,
    )
    .unwrap();
    assert!(apply_execute(revive, &mut identity, &token(1), &ledger, &mut effects).is_ok());
    assert_eq!(identity.did_document(), Some(&vec![1, 2, 3]));

    let delete =
        Proposal::new(oid(10), UpdateDidDocument::delete(), None, vec![oid(3)], &identity).unwrap();
    assert_eq!(
        apply_execute(delete, &mut identity, &token(1), &ledger, &mut effects),
        Ok(ExecutionSummary { identity: oid(100), action: ActionKind::Delete })
    );
    assert_eq!(identity.did_document(), None);
    assert!(identity.has_been_deleted());
    assert_eq!(identity.controllers(), &committee);
    assert_eq!(identity.threshold(), 5);
    assert_eq!(identity.id(), oid(100));

    // Deletion is final.
    let late = Proposal::new(
        oid(11),
        UpdateDidDocument::new(vec![1]).unwrap(),
        None,
        vec![oid(3)],
        &identity,
    )
    .unwrap();
    assert_eq!(
        apply_execute(late, &mut identity, &token(1), &ledger, &mut effects),
        Err(GovernanceError::Unauthorized)
    );
    assert_eq!(identity.did_document(), None);
}

#[test]
fn lapse_depends_on_the_expiration_epoch_and_the_ledger() {
    assert_eq!(check_lapse(None, &LedgerState::at_epoch(u64::MAX)), None);
    assert_eq!(check_lapse(None, &LedgerState::unavailable()), None);
    assert_eq!(check_lapse(Some(5), &LedgerState::at_epoch(4)), None);
    assert_eq!(check_lapse(Some(5), &LedgerState::at_epoch(5)), None);
    assert_eq!(check_lapse(Some(5), &LedgerState::at_epoch(6)), Some(GovernanceError::Expired));
    assert_eq!(
        check_lapse(Some(5), &LedgerState::unavailable()),
        Some(GovernanceError::ClientError),
    );
    assert_eq!(LedgerState::at_epoch(3).epoch, Some(3));
    assert_eq!(LedgerState::unavailable().epoch, None);
}

#[test]
fn effects_report_whether_the_transaction_was_executed() {
    let effects = TransactionEffects::new(ExecutionStatus::Success, vec![oid(1)], vec![oid(2)]);
    assert!(effects.succeeded());
    assert_eq!(effects.created, vec![oid(1)]);
    assert_eq!(effects.deleted, vec![oid(2)]);
    assert!(!TransactionEffects::new(ExecutionStatus::Failure, vec![], vec![]).succeeded());
}

#[test]
fn steps_of_one_transaction_are_applied_in_turn() {
    // One transaction created two proposals on the same identity.
    let mut identity = identity(100);
    let mut effects = TransactionEffects::new(
        ExecutionStatus::Success,
        vec![oid(20), oid(21)],
        vec![],
    );
    let first = apply_create(
        UpdateDidDocument::deactivate(),
        None,
        &mut identity,
        &token(1),
        &mut effects,
    );
    let second = apply_create(
        UpdateDidDocument::delete(),
        Some(8),
        &mut identity,
        &token(2),
        &mut effects,
    );
    match (first, second) {
        (Ok(ProposalResult::Pending(first)), Ok(ProposalResult::Pending(second))) => {
            assert_eq!(first.id(), oid(20));
            assert_eq!(first.votes(), 2);
            assert_eq!(second.id(), oid(21));
            assert_eq!(second.votes(), 3);
            assert_eq!(second.expiration_epoch(), Some(8));
        }
        _ => panic!("both proposals are pending"),
    }
    assert!(effects.created.is_empty());
}

#[test]
fn creation_is_decided_by_the_creators_weight() {
    let identity = identity(5);
    assert_eq!(Proposal::check_create(&identity, &token(3)), Ok(true));
    assert_eq!(Proposal::check_create(&identity, &token(2)), Ok(false));
    assert_eq!(Proposal::check_create(&identity, &token(4)), Err(GovernanceError::Unauthorized));
    let open = OnChainIdentity::new(oid(100), vec![member(1, 0)], 0, None, false).unwrap();
    assert_eq!(Proposal::check_create(&open, &token(1)), Ok(true));
    // A weight that reaches the threshold does not help a token of another identity.
    let foreign = ControllerToken::new(oid(3), oid(101));
    assert_eq!(Proposal::check_create(&identity, &foreign), Err(GovernanceError::Unauthorized));
}

#[test]
fn attempts_keep_what_they_were_given() {
    let identity = identity(5);
    let proposal =
        Proposal::new(
            oid(7),
            UpdateDidDocument::delete(),
            Some(3),
            vec![oid(3)],
            &identity,
        ).unwrap();
    let attempt = WasmExecuteUpdateDidDocumentProposal::new(
        WasmProposalUpdateDid(proposal),
        &token(1),
    );
    assert_eq!(attempt.controller_token, token(1));
    assert_eq!(attempt.proposal.id(), oid(7));
    assert_eq!(attempt.proposal.votes(), 5);
    let attempt = attempt.proposal.approve(&token(2));
    assert_eq!(attempt.controller_token, token(2));
    assert_eq!(attempt.proposal.voters(), vec![oid(3)]);
}
