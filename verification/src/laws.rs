//! What holds of every proposal, identity and token, stated over the
//! mathematical functions by which the contracts of this library say what its
//! functions do.

use crate::action::Action;
use crate::applier::{approve_application, create_application, execute_application};
use crate::committee::{
    lemma_tally_is_weight_among_voters, lemma_tally_of_one, lemma_tally_push,
    lemma_tally_within_total, lemma_weight_within_total, total_weight, weight_among, weight_of,
};
use crate::error::GovernanceError;
use crate::identity::{ControllerToken, Identity};
use crate::ledger::{lapse, Effects, ExecutionStatus, LedgerState};
use crate::object_id::ObjectId;
use crate::proposal::{
    approve_outcome, approve_transaction, create_outcome, create_transaction, execute_outcome,
    ProposalData,
};
use crate::transaction::TransactionKind;
use vstd::prelude::*;

verus! {

/// A creator whose own weight reaches the threshold never leaves a pending
/// proposal behind: creating one either fails or carries the action out at
/// once.  It does carry it out where the identity admits the creator's token
/// and the ledger executed the transaction.
pub proof fn law_sufficient_creator_executes(
    identity: Identity,
    token: ControllerToken,
    action: Action,
    expiration_epoch: Option<u64>,
    effects: Effects,
)
    requires
        identity.well_formed(),
        weight_of(identity.controllers, token.controller_id) >= identity.threshold,
    ensures
        create_outcome(identity, token) != Ok::<bool, GovernanceError>(false),
        create_application(identity, token, effects) != Ok::<bool, GovernanceError>(false),
        create_transaction(action, expiration_epoch, identity, token) matches Ok(tx) ==> tx.kind
            == TransactionKind::ProposeAndExecute,
        identity.admits(token) ==> create_outcome(identity, token) == Ok::<bool, GovernanceError>(
            true,
        ),
        identity.admits(token) && effects.status == ExecutionStatus::Success
            ==> create_application(identity, token, effects) == Ok::<bool, GovernanceError>(true),
{
}

/// A creator whose own weight is below the threshold leaves a pending proposal
/// that holds exactly its vote.
pub proof fn law_insufficient_creator_proposes(
    identity: Identity,
    token: ControllerToken,
    id: ObjectId,
    action: Action,
    expiration_epoch: Option<u64>,
)
    requires
        identity.well_formed(),
        action.well_formed(),
        identity.admits(token),
        weight_of(identity.controllers, token.controller_id) < identity.threshold,
    ensures
        create_outcome(identity, token) == Ok::<bool, GovernanceError>(false),
        ({
            let proposal = ProposalData::created_by(
                id,
                action,
                expiration_epoch,
                token.controller_id,
                identity,
            );
            &&& proposal.well_formed()
            &&& proposal.tallied_by(identity)
            &&& proposal.voters == seq![token.controller_id]
            &&& proposal.votes == weight_of(identity.controllers, token.controller_id)
        }),
{
    lemma_tally_of_one(token.controller_id, identity.controllers);
    lemma_weight_within_total(identity.controllers, token.controller_id);
}

/// After a vote, the votes of a proposal are again the sum of the weights of
/// its voters, whatever they were before: the weight of those members of the
/// committee that have voted.  No controller occurs twice among the voters, and
/// the votes do not exceed the weight of the committee.
pub proof fn law_votes_are_tallied(
    proposal: ProposalData,
    identity: Identity,
    token: ControllerToken,
    ledger: LedgerState,
)
    requires
        proposal.well_formed(),
        identity.well_formed(),
        approve_outcome(proposal, identity, token, ledger) is Ok,
    ensures
        ({
            let approved = proposal.approved_by(token.controller_id, identity);
            &&& approved.well_formed()
            &&& approved.tallied_by(identity)
            &&& approved.votes == weight_among(identity.controllers, approved.voters.to_set())
            &&& approved.votes <= total_weight(identity.controllers)
            &&& approved.voters == proposal.voters.push(token.controller_id)
            &&& approved.action == proposal.action
            &&& approved.id == proposal.id
            &&& approved.expiration_epoch == proposal.expiration_epoch
        }),
{
    let voters = proposal.voters.push(token.controller_id);
    assert(voters.no_duplicates());
    lemma_tally_within_total(voters, identity.controllers);
    lemma_tally_is_weight_among_voters(voters, identity.controllers);
}

/// Where the votes of a proposal were the sum of the weights of its voters, a
/// vote adds exactly the weight of the controller that casts it: votes never
/// go down.
pub proof fn law_vote_adds_weight(
    proposal: ProposalData,
    identity: Identity,
    token: ControllerToken,
    ledger: LedgerState,
)
    requires
        proposal.well_formed(),
        identity.well_formed(),
        proposal.tallied_by(identity),
        approve_outcome(proposal, identity, token, ledger) is Ok,
    ensures
        proposal.approved_by(token.controller_id, identity).votes == proposal.votes + weight_of(
            identity.controllers,
            token.controller_id,
        ),
        proposal.approved_by(token.controller_id, identity).votes >= proposal.votes,
{
    let voters = proposal.voters.push(token.controller_id);
    assert(voters.no_duplicates());
    lemma_tally_push(proposal.voters, token.controller_id, identity.controllers);
    lemma_tally_within_total(voters, identity.controllers);
}

/// The transaction that records a vote carries the action out exactly when
/// the vote brings the votes up to the threshold.
pub proof fn law_vote_executes_at_threshold(
    proposal: ProposalData,
    identity: Identity,
    token: ControllerToken,
    ledger: LedgerState,
)
    requires
        proposal.well_formed(),
        identity.well_formed(),
        approve_outcome(proposal, identity, token, ledger) is Ok,
    ensures
        approve_transaction(proposal, identity, token, ledger) matches Ok(tx) && (tx.kind
            == TransactionKind::ApproveAndExecute <==> proposal.approved_by(
            token.controller_id,
            identity,
        ).votes >= identity.threshold) && (tx.kind == TransactionKind::Approve
            <==> proposal.approved_by(token.controller_id, identity).votes < identity.threshold),
{
    let voters = proposal.voters.push(token.controller_id);
    assert(voters.no_duplicates());
    lemma_tally_within_total(voters, identity.controllers);
}

/// A controller cannot vote twice: once its vote has been recorded, every
/// further vote of the same controller on the proposal is refused as a
/// duplicate, whatever the identity and the ledger have become.
pub proof fn law_second_vote_is_duplicate(
    proposal: ProposalData,
    identity: Identity,
    token: ControllerToken,
    ledger: LedgerState,
    later_identity: Identity,
    later_ledger: LedgerState,
    later_effects: Effects,
)
    requires
        approve_outcome(proposal, identity, token, ledger) is Ok,
    ensures
        approve_outcome(
            proposal.approved_by(token.controller_id, identity),
            later_identity,
            token,
            later_ledger,
        ) == Err::<bool, GovernanceError>(GovernanceError::DuplicateVote),
        approve_application(
            proposal.approved_by(token.controller_id, identity),
            later_identity,
            token,
            later_ledger,
            later_effects,
        ) == Err::<bool, GovernanceError>(GovernanceError::DuplicateVote),
{
    let voters = proposal.voters.push(token.controller_id);
    assert(voters[voters.len() - 1] == token.controller_id);
}

/// A proposal whose votes, tallied by the identity's committee, are below the
/// threshold cannot be executed: the threshold is not met, whoever asks and
/// whatever the ledger says.
pub proof fn law_execution_needs_threshold(
    proposal: ProposalData,
    identity: Identity,
    token: ControllerToken,
    ledger: LedgerState,
    effects: Effects,
)
    requires
        proposal.tallied_by(identity),
        proposal.votes < identity.threshold,
    ensures
        execute_outcome(proposal, identity, token, ledger) == Err::<(), GovernanceError>(
            GovernanceError::ThresholdNotMet,
        ),
        execute_application(proposal, identity, token, ledger, effects) == Err::<
            (),
            GovernanceError,
        >(GovernanceError::ThresholdNotMet),
{
}

/// A proposal that has the votes, has not lapsed, and is executed with a token
/// that the identity admits, in a transaction that the ledger carried out,
/// changes the identity as its action says and in no other way: an update
/// makes the document exactly the bytes of the action; a deactivation clears
/// the document; a deletion clears it and marks the identity as deleted.
pub proof fn law_execution_changes_what_the_action_says(
    proposal: ProposalData,
    identity: Identity,
    token: ControllerToken,
    ledger: LedgerState,
    effects: Effects,
)
    requires
        proposal.tallied_by(identity),
        proposal.votes >= identity.threshold,
        lapse(proposal.expiration_epoch, ledger) is None,
        identity.admits(token),
        effects.status == ExecutionStatus::Success,
    ensures
        execute_application(proposal, identity, token, ledger, effects) == Ok::<
            (),
            GovernanceError,
        >(()),
        ({
            let after = identity.after(proposal.action);
            &&& after.id == identity.id
            &&& after.controllers == identity.controllers
            &&& after.threshold == identity.threshold
            &&& match proposal.action {
                Action::Update(bytes) => after.document == Some(bytes) && after.deleted
                    == identity.deleted,
                Action::Deactivate => after.document is None && after.deleted == identity.deleted,
                Action::Delete => after.document is None && after.deleted,
            }
        }),
{
}

/// A vote on a proposal that has expired is refused as expired, however many
/// votes the proposal has and whoever casts the vote, unless that controller
/// has voted before.
pub proof fn law_expired_proposal_takes_no_vote(
    proposal: ProposalData,
    identity: Identity,
    token: ControllerToken,
    ledger: LedgerState,
    effects: Effects,
)
    requires
        proposal.expiration_epoch matches Some(last) && ledger.epoch matches Some(now) && now
            > last,
        !proposal.voters.contains(token.controller_id),
    ensures
        approve_outcome(proposal, identity, token, ledger) == Err::<bool, GovernanceError>(
            GovernanceError::Expired,
        ),
        approve_application(proposal, identity, token, ledger, effects) == Err::<
            bool,
            GovernanceError,
        >(GovernanceError::Expired),
{
}

/// A proposal that has expired cannot be executed either.
pub proof fn law_expired_proposal_is_not_executed(
    proposal: ProposalData,
    identity: Identity,
    token: ControllerToken,
    ledger: LedgerState,
)
    requires
        proposal.expiration_epoch matches Some(last) && ledger.epoch matches Some(now) && now
            > last,
    ensures
        execute_outcome(proposal, identity, token, ledger) is Err,
        identity.votes_of(proposal.voters) >= identity.threshold ==> execute_outcome(
            proposal,
            identity,
            token,
            ledger,
        ) == Err::<(), GovernanceError>(GovernanceError::Expired),
{
}

/// Deletion is final: a deleted identity admits no token, so that nothing can
/// be created, approved or executed on it any more.
pub proof fn law_deleted_identity_accepts_nothing(
    proposal: ProposalData,
    identity: Identity,
    token: ControllerToken,
    ledger: LedgerState,
)
    requires
        identity.deleted,
    ensures
        !identity.admits(token),
        create_outcome(identity, token) == Err::<bool, GovernanceError>(
            GovernanceError::Unauthorized,
        ),
        approve_outcome(proposal, identity, token, ledger) is Err,
        execute_outcome(proposal, identity, token, ledger) is Err,
{
}

/// A token that was issued for another identity is never admitted.
pub proof fn law_foreign_token_is_unauthorized(
    proposal: ProposalData,
    identity: Identity,
    token: ControllerToken,
    ledger: LedgerState,
)
    requires
        token.controller_of != identity.id,
    ensures
        create_outcome(identity, token) == Err::<bool, GovernanceError>(
            GovernanceError::Unauthorized,
        ),
        approve_outcome(proposal, identity, token, ledger) is Err,
        execute_outcome(proposal, identity, token, ledger) is Err,
{
}

/// An action that has been carried out leaves the committee and the threshold
/// as they were, so that votes are worth afterwards what they were worth before.
pub proof fn law_execution_keeps_the_committee(
    identity: Identity,
    action: Action,
    voters: Seq<ObjectId>,
)
    ensures
        identity.after(action).votes_of(voters) == identity.votes_of(voters),
        identity.well_formed() ==> identity.after(action).well_formed(),
{
}

} // verus!
