use did_governance::action::{PackedDocument, UpdateDidDocument};
use did_governance::applier::{apply_approve, apply_create, apply_execute};
use did_governance::committee::Controller;
use did_governance::error::GovernanceError;
use did_governance::identity::{ControllerToken, OnChainIdentity};
use did_governance::ledger::{ExecutionStatus, LedgerState, TransactionEffects};
use did_governance::object_id::ObjectId;
use did_governance::proposal::{Proposal, ProposalResult};
use did_governance::update_did::{WasmCreateUpdateDidProposal, WasmProposalUpdateDid};

fn oid(n: u128) -> ObjectId {
    ObjectId::new(7, n)
}

fn committee() -> Vec<Controller> {
    vec![
        Controller { id: oid(1), weight: 2 },
        Controller { id: oid(2), weight: 3 },
        Controller { id: oid(3), weight: 5 },
    ]
}

fn identity(threshold: u64) -> OnChainIdentity {
    OnChainIdentity::new(oid(100), committee(), threshold, Some(vec![1, 1, 1]), false).unwrap()
}

fn token(controller: u128) -> ControllerToken {
    ControllerToken::new(oid(controller), oid(100))
}

fn success() -> TransactionEffects {
    TransactionEffects::new(ExecutionStatus::Success, vec![oid(500)], vec![oid(40)])
}

fn failure() -> TransactionEffects {
    TransactionEffects::new(ExecutionStatus::Failure, vec![oid(500)], vec![oid(40)])
}

fn proposal_with(voters: Vec<ObjectId>, expiration: Option<u64>, on: &OnChainIdentity) -> Proposal {
    Proposal::new(oid(40), UpdateDidDocument::new(vec![8, 8]).unwrap(), expiration, voters, on)
        .unwrap()
}

fn unchanged(identity: &OnChainIdentity, effects: &TransactionEffects) {
    assert_eq!(identity.did_document(), Some(&vec![1, 1, 1]));
    assert!(!identity.has_been_deleted());
    assert_eq!(effects.created, vec![oid(500)]);
    assert_eq!(effects.deleted, vec![oid(40)]);
}

#[test]
fn create_with_a_token_of_another_identity_is_unauthorized() {
    let mut identity = identity(4);
    let foreign = ControllerToken::new(oid(1), oid(101));
    let create = WasmCreateUpdateDidProposal::new(vec![4, 4], foreign, None);
    assert_eq!(
        create.build_programmable_transaction(&identity),
        Err(GovernanceError::Unauthorized)
    );
    let mut effects = success();
    let refused = create.apply(&mut identity, &mut effects);
    assert_eq!(refused.err(), Some(GovernanceError::Unauthorized));
    unchanged(&identity, &effects);
}

#[test]
fn create_by_someone_outside_the_committee_is_unauthorized() {
    let identity = identity(4);
    let create = WasmCreateUpdateDidProposal::deactivate(token(9), None);
    assert_eq!(
        create.build_programmable_transaction(&identity),
        Err(GovernanceError::Unauthorized)
    );
}

#[test]
fn nothing_is_accepted_on_a_deleted_identity() {
    let mut deleted = OnChainIdentity::new(oid(100), committee(), 4, None, true).unwrap();
    let ledger = LedgerState::at_epoch(1);
    let create = WasmCreateUpdateDidProposal::new(vec![4, 4], token(3), None);
    assert_eq!(
        create.build_programmable_transaction(&deleted),
        Err(GovernanceError::Unauthorized)
    );
    let pending = proposal_with(vec![oid(1)], None, &deleted);
    assert_eq!(
        pending.check_approve(&deleted, &token(2), &ledger),
        Err(GovernanceError::Unauthorized)
    );
    let voted = proposal_with(vec![oid(1), oid(2)], None, &deleted);
    assert_eq!(voted.votes(), 5);
    let mut effects = success();
    assert_eq!(
        apply_execute(voted, &mut deleted, &token(3), &ledger, &mut effects),
        Err(GovernanceError::Unauthorized)
    );
    assert!(deleted.has_been_deleted());
    assert_eq!(deleted.did_document(), None);
}

#[test]
fn second_vote_of_a_controller_is_a_duplicate() {
    let mut identity = identity(100);
    let ledger = LedgerState::at_epoch(1);
    let mut proposal = proposal_with(vec![oid(1)], None, &identity);
    let mut effects = success();
    assert_eq!(
        apply_approve(&mut proposal, &mut identity, &token(2), &ledger, &mut effects),
        Ok(None),
    );
    assert_eq!(proposal.votes(), 5);
    assert_eq!(proposal.voters(), &vec![oid(1), oid(2)]);

    assert_eq!(
        proposal.approve(&identity, &token(2), &ledger).err(),
        Some(GovernanceError::DuplicateVote)
    );
    let again = apply_approve(&mut proposal, &mut identity, &token(2), &ledger, &mut effects);
    assert_eq!(again, Err(GovernanceError::DuplicateVote));
    assert_eq!(proposal.votes(), 5);
    assert_eq!(proposal.voters(), &vec![oid(1), oid(2)]);
    unchanged(&identity, &effects);
}

#[test]
fn duplicate_vote_is_reported_before_expiry_and_authorization() {
    let identity = identity(100);
    let proposal = proposal_with(vec![oid(1)], Some(3), &identity);
    let foreign_of_one = ControllerToken::new(oid(1), oid(101));
    assert_eq!(
        proposal.check_approve(&identity, &foreign_of_one, &LedgerState::at_epoch(9)),
        Err(GovernanceError::DuplicateVote)
    );
    assert_eq!(
        proposal.check_approve(&identity, &foreign_of_one, &LedgerState::unavailable()),
        Err(GovernanceError::DuplicateVote)
    );
}

#[test]
fn expired_proposal_takes_no_vote_whatever_its_votes() {
    let mut identity = identity(4);
    let ledger = LedgerState::at_epoch(11);
    for voters in [vec![], vec![oid(1)], vec![oid(1), oid(3)]] {
        let mut proposal = proposal_with(voters.clone(), Some(10), &identity);
        let before = proposal.votes();
        let mut effects = success();
        let refused = apply_approve(&mut proposal, &mut identity, &token(2), &ledger, &mut effects);
        assert_eq!(refused, Err(GovernanceError::Expired));
        assert_eq!(proposal.votes(), before);
        assert_eq!(proposal.voters(), &voters);
        unchanged(&identity, &effects);
    }
    // Expiry is reported before a missing authorization.
    let proposal = proposal_with(vec![oid(1)], Some(10), &identity);
    assert_eq!(
        proposal.check_approve(&identity, &token(9), &ledger),
        Err(GovernanceError::Expired)
    );
}

#[test]
fn expired_proposal_is_not_executed() {
    let mut identity = identity(4);
    let proposal = proposal_with(vec![oid(3)], Some(10), &identity);
    let ledger = LedgerState::at_epoch(11);
    let attempt = WasmProposalUpdateDid(proposal).into_tx(&token(1));
    assert_eq!(
        attempt.build_programmable_transaction(&identity, &ledger),
        Err(GovernanceError::Expired)
    );
    let mut effects = success();
    assert_eq!(attempt.apply(&mut identity, &mut effects, &ledger), Err(GovernanceError::Expired));
    unchanged(&identity, &effects);
}

#[test]
fn execution_below_the_threshold_is_refused() {
    let mut identity = identity(6);
    let proposal = proposal_with(vec![oid(1), oid(2)], None, &identity);
    assert_eq!(proposal.votes(), 5);
    let ledger = LedgerState::at_epoch(1);
    assert_eq!(
        proposal.check_execute(&identity, &token(1), &ledger),
        Err(GovernanceError::ThresholdNotMet)
    );
    // The threshold is reported first, whoever asks and whatever the epoch.
    let expiring = proposal_with(vec![oid(1), oid(2)], Some(0), &identity);
    assert_eq!(
        expiring.check_execute(&identity, &token(9), &LedgerState::at_epoch(7)),
        Err(GovernanceError::ThresholdNotMet)
    );
    let attempt = WasmProposalUpdateDid(proposal).into_tx(&token(1));
    assert_eq!(
        attempt.build_programmable_transaction(&identity, &ledger),
        Err(GovernanceError::ThresholdNotMet)
    );
    let mut effects = success();
    assert_eq!(
        attempt.apply(&mut identity, &mut effects, &ledger),
        Err(GovernanceError::ThresholdNotMet)
    );
    unchanged(&identity, &effects);
}

#[test]
fn execution_by_an_unauthorized_token_is_refused() {
    let mut identity = identity(5);
    let proposal = proposal_with(vec![oid(3)], None, &identity);
    let ledger = LedgerState::at_epoch(1);
    let mut effects = success();
    assert_eq!(
        apply_execute(proposal, &mut identity, &token(9), &ledger, &mut effects),
        Err(GovernanceError::Unauthorized)
    );
    unchanged(&identity, &effects);
}

#[test]
fn failed_transaction_is_a_version_conflict_and_changes_nothing() {
    let mut identity = identity(4);
    let ledger = LedgerState::at_epoch(1);

    let mut effects = failure();
    let created = apply_create(
        UpdateDidDocument::delete(),
        None,
        &mut identity,
        &token(3),
        &mut effects,
    );
    assert_eq!(created.err(), Some(GovernanceError::VersionConflict));
    unchanged(&identity, &effects);

    let mut proposal = proposal_with(vec![oid(1)], None, &identity);
    let approved = apply_approve(&mut proposal, &mut identity, &token(2), &ledger, &mut effects);
    assert_eq!(approved, Err(GovernanceError::VersionConflict));
    assert_eq!(proposal.votes(), 2);
    assert_eq!(proposal.voters(), &vec![oid(1)]);
    unchanged(&identity, &effects);

    let voted = proposal_with(vec![oid(3)], None, &identity);
    let executed = apply_execute(voted, &mut identity, &token(1), &ledger, &mut effects);
    assert_eq!(executed, Err(GovernanceError::VersionConflict));
    unchanged(&identity, &effects);
}

#[test]
fn unknown_epoch_is_a_client_error_where_the_proposal_can_expire() {
    let mut identity = identity(4);
    let unknown = LedgerState::unavailable();
    let mut expiring = proposal_with(vec![oid(1)], Some(10), &identity);
    assert_eq!(
        expiring.approve(&identity, &token(2), &unknown).err(),
        Some(GovernanceError::ClientError)
    );
    let mut effects = success();
    assert_eq!(
        apply_approve(&mut expiring, &mut identity, &token(2), &unknown, &mut effects),
        Err(GovernanceError::ClientError)
    );
    assert_eq!(expiring.votes(), 2);
    unchanged(&identity, &effects);
    let voted = proposal_with(vec![oid(3)], Some(10), &identity);
    assert_eq!(
        voted.check_execute(&identity, &token(1), &unknown),
        Err(GovernanceError::ClientError)
    );

    // A proposal that never expires does not need the epoch.
    let lasting = proposal_with(vec![oid(1)], None, &identity);
    assert_eq!(lasting.check_approve(&identity, &token(2), &unknown), Ok(true));
}

#[test]
fn pending_proposal_without_a_created_object_is_a_client_error() {
    let mut identity = identity(4);
    let mut effects = TransactionEffects::new(ExecutionStatus::Success, vec![], vec![oid(40)]);
    let created = apply_create(
        UpdateDidDocument::delete(),
        Some(3),
        &mut identity,
        &token(1),
        &mut effects,
    );
    assert_eq!(created.err(), Some(GovernanceError::ClientError));
    assert!(!identity.has_been_deleted());
    assert_eq!(effects.deleted, vec![oid(40)]);

    // Where the action is carried out at once, no created object is needed.
    let executed = apply_create(
        UpdateDidDocument::delete(),
        Some(3),
        &mut identity,
        &token(3),
        &mut effects,
    );
    assert!(matches!(executed, Ok(ProposalResult::Executed(_))));
    assert!(identity.has_been_deleted());
}

#[test]
fn update_without_bytes_is_malformed() {
    assert_eq!(UpdateDidDocument::new(vec![]).err(), Some(GovernanceError::MalformedAction));
    assert_eq!(PackedDocument::new(vec![]).err(), Some(GovernanceError::MalformedAction));
    assert!(UpdateDidDocument::new(vec![0]).is_ok());

    let mut identity = identity(4);
    let create = WasmCreateUpdateDidProposal::new(vec![], token(3), None);
    assert_eq!(create.action().err(), Some(GovernanceError::MalformedAction));
    assert_eq!(
        create.build_programmable_transaction(&identity),
        Err(GovernanceError::MalformedAction)
    );
    let mut effects = success();
    let refused = create.apply(&mut identity, &mut effects);
    assert_eq!(refused.err(), Some(GovernanceError::MalformedAction));
    unchanged(&identity, &effects);

    // The malformed action is reported before the missing authorization.
    let create = WasmCreateUpdateDidProposal::new(vec![], token(9), None);
    assert_eq!(
        create.build_programmable_transaction(&identity),
        Err(GovernanceError::MalformedAction)
    );
}

#[test]
fn only_conflicts_and_client_errors_can_be_retried() {
    assert!(GovernanceError::VersionConflict.is_retryable());
    assert!(GovernanceError::ClientError.is_retryable());
    assert!(!GovernanceError::Unauthorized.is_retryable());
    assert!(!GovernanceError::DuplicateVote.is_retryable());
    assert!(!GovernanceError::Expired.is_retryable());
    assert!(!GovernanceError::ThresholdNotMet.is_retryable());
    assert!(!GovernanceError::MalformedAction.is_retryable());
}
