//! Bringing the local mirrors in line with what the ledger reports.
//!
//! Each function here belongs to one kind of transaction.  It is given what the
//! transaction was built from and the effects that the ledger reported of it,
//! and changes the mirrors accordingly, all at once or not at all: where it
//! fails, the mirrors and the effects are as they were.  From the effects it
//! takes out what it accounts for; the rest stays, to be applied by whoever the
//! rest of the transaction belongs to.
//!
//! Effects must be those of the transaction that was built from the same
//! arguments and submitted, and must be applied once.

use crate::action::{kind_of, Action, UpdateDidDocument};
use crate::committee::{
    lemma_tally_of_one, lemma_tally_push, lemma_tally_within_total, lemma_weight_within_total,
};
use crate::error::GovernanceError;
use crate::identity::{ControllerToken, Identity, OnChainIdentity};
use crate::ledger::{Effects, ExecutionStatus, LedgerState, TransactionEffects};
use crate::proposal::{
    approve_outcome, create_outcome, execute_outcome, ExecutionSummary, Proposal, ProposalData,
    ProposalResult,
};
use vstd::prelude::*;

verus! {

/// Whether the effects of a transaction that creates a proposal can be
/// applied, and whether the action was carried out with it (`true`) or a
/// pending proposal was recorded (`false`).  The creation itself must be
/// allowed; the ledger must have carried the transaction out; and where a
/// proposal was recorded, the effects must name the object that was created
/// for it.
pub open spec fn create_application(
    identity: Identity,
    token: ControllerToken,
    effects: Effects,
) -> Result<bool, GovernanceError> {
    match create_outcome(identity, token) {
        Err(e) => Err(e),
        Ok(executes) => if effects.status != ExecutionStatus::Success {
            Err(GovernanceError::VersionConflict)
        } else if !executes && effects.created.len() == 0 {
            Err(GovernanceError::ClientError)
        } else {
            Ok(executes)
        },
    }
}

/// Whether the effects of a transaction that records a vote can be applied,
/// and whether the action was carried out with it.
pub open spec fn approve_application(
    proposal: ProposalData,
    identity: Identity,
    token: ControllerToken,
    ledger: LedgerState,
    effects: Effects,
) -> Result<bool, GovernanceError> {
    match approve_outcome(proposal, identity, token, ledger) {
        Err(e) => Err(e),
        Ok(executes) => if effects.status != ExecutionStatus::Success {
            Err(GovernanceError::VersionConflict)
        } else {
            Ok(executes)
        },
    }
}

/// Whether the effects of a transaction that executes a proposal can be applied.
pub open spec fn execute_application(
    proposal: ProposalData,
    identity: Identity,
    token: ControllerToken,
    ledger: LedgerState,
    effects: Effects,
) -> Result<(), GovernanceError> {
    match execute_outcome(proposal, identity, token, ledger) {
        Err(e) => Err(e),
        Ok(()) => if effects.status != ExecutionStatus::Success {
            Err(GovernanceError::VersionConflict)
        } else {
            Ok(())
        },
    }
}

/// The summary of carrying `action` out on `identity`.
pub open spec fn summary_of(identity: Identity, action: Action) -> ExecutionSummary {
    ExecutionSummary { identity: identity.id, action: kind_of(action) }
}

/// Applies the effects of the transaction that [`Proposal::create`] builds
/// from the same arguments.
///
/// Where the creator's weight reaches the threshold, the action is carried out
/// on the identity.  Otherwise the result is the pending proposal, under the
/// identifier of the first object that the effects list as created, which is
/// taken out of the effects.
pub fn apply_create(
    action: UpdateDidDocument,
    expiration_epoch: Option<u64>,
    identity: &mut OnChainIdentity,
    token: &ControllerToken,
    effects: &mut TransactionEffects,
) -> (r: Result<ProposalResult, GovernanceError>)
    ensures
        match create_application(old(identity)@, *token, old(effects)@) {
            Err(e) => {
                &&& r matches Err(x) && x == e
                &&& final(identity)@ == old(identity)@
                &&& final(effects)@ == old(effects)@
            },
            Ok(true) => {
                &&& r matches Ok(ProposalResult::Executed(summary)) && summary == summary_of(
                    old(identity)@,
                    action@,
                )
                &&& final(identity)@ == old(identity)@.after(action@)
                &&& final(effects)@ == old(effects)@
            },
            Ok(false) => {
                &&& r matches Ok(ProposalResult::Pending(proposal)) && proposal@
                    == ProposalData::created_by(
                    old(effects)@.created[0],
                    action@,
                    expiration_epoch,
                    token.controller_id,
                    old(identity)@,
                ) && proposal@.well_formed() && proposal@.tallied_by(old(identity)@)
                &&& final(identity)@ == old(identity)@
                &&& final(effects)@ == old(effects)@.without_first_created()
            },
        },
{
    let executes = match Proposal::check_create(identity, token) {
        Err(e) => {
            return Err(e);
        },
        Ok(executes) => executes,
    };
    if !effects.succeeded() {
        return Err(GovernanceError::VersionConflict);
    }
    if executes {
        let summary = ExecutionSummary { identity: identity.id(), action: action.kind() };
        identity.carry_out(&action);
        Ok(ProposalResult::Executed(summary))
    } else {
        if effects.created.len() == 0 {
            return Err(GovernanceError::ClientError);
        }
        proof {
            use_type_invariant(&*identity);
            lemma_weight_within_total(identity@.controllers, token.controller_id);
        }
        let weight: u64 = match identity.controller_voting_power(token.controller_id) {
            Some(weight) => weight,
            None => 0,
        };
        let id = effects.take_first_created();
        let proposal = Proposal::first_vote(
            id,
            action,
            expiration_epoch,
            token.controller_id,
            weight,
        );
        proof {
            lemma_tally_of_one(token.controller_id, identity@.controllers);
        }
        Ok(ProposalResult::Pending(proposal))
    }
}

/// Applies the effects of the transaction that [`Proposal::approve`] builds
/// from the same arguments.
///
/// The vote is recorded in the proposal.  Where it brings the votes up to the
/// threshold, the action is carried out on the identity, the record of the
/// proposal's deletion is taken out of the effects, and the result is the
/// summary of the execution: the proposal is then no longer pending.
pub fn apply_approve(
    proposal: &mut Proposal,
    identity: &mut OnChainIdentity,
    token: &ControllerToken,
    ledger: &LedgerState,
    effects: &mut TransactionEffects,
) -> (r: Result<Option<ExecutionSummary>, GovernanceError>)
    ensures
        match approve_application(
            old(proposal)@,
            old(identity)@,
            *token,
            *ledger,
            old(effects)@,
        ) {
            Err(e) => {
                &&& r == Err::<Option<ExecutionSummary>, GovernanceError>(e)
                &&& final(proposal)@ == old(proposal)@
                &&& final(identity)@ == old(identity)@
                &&& final(effects)@ == old(effects)@
            },
            Ok(executes) => {
                &&& final(proposal)@ == old(proposal)@.approved_by(
                    token.controller_id,
                    old(identity)@,
                )
                &&& final(proposal)@.well_formed()
                &&& final(proposal)@.tallied_by(final(identity)@)
                &&& if executes {
                    &&& r == Ok::<Option<ExecutionSummary>, GovernanceError>(
                        Some(summary_of(old(identity)@, old(proposal)@.action)),
                    )
                    &&& final(identity)@ == old(identity)@.after(old(proposal)@.action)
                    &&& final(effects)@ == old(effects)@.without_deleted(old(proposal)@.id)
                } else {
                    &&& r == Ok::<Option<ExecutionSummary>, GovernanceError>(None)
                    &&& final(identity)@ == old(identity)@
                    &&& final(effects)@ == old(effects)@
                }
            },
        },
{
    let executes = match proposal.check_approve(identity, token, ledger) {
        Err(e) => {
            return Err(e);
        },
        Ok(executes) => executes,
    };
    if !effects.succeeded() {
        return Err(GovernanceError::VersionConflict);
    }
    proof {
        use_type_invariant(&*identity);
        use_type_invariant(&*proposal);
        let voters = proposal@.voters.push(token.controller_id);
        lemma_tally_push(proposal@.voters, token.controller_id, identity@.controllers);
        lemma_tally_within_total(voters, identity@.controllers);
        lemma_weight_within_total(identity@.controllers, token.controller_id);
    }
    let weight: u64 = match identity.controller_voting_power(token.controller_id) {
        Some(weight) => weight,
        None => 0,
    };
    let votes: u64 = identity.votes_of(proposal.voters()) + weight;
    proposal.record_vote(token.controller_id, votes);
    if executes {
        let summary = ExecutionSummary {
            identity: identity.id(),
            action: proposal.action().kind(),
        };
        identity.carry_out(proposal.action());
        effects.forget_deleted(proposal.id());
        Ok(Some(summary))
    } else {
        Ok(None)
    }
}

/// Applies the effects of the transaction that [`Proposal::into_tx`] builds
/// from the same arguments.
///
/// The action is carried out on the identity, and the record of the
/// proposal's deletion is taken out of the effects.  The proposal itself is
/// used up, whatever the result.
pub fn apply_execute(
    proposal: Proposal,
    identity: &mut OnChainIdentity,
    token: &ControllerToken,
    ledger: &LedgerState,
    effects: &mut TransactionEffects,
) -> (r: Result<ExecutionSummary, GovernanceError>)
    ensures
        match execute_application(proposal@, old(identity)@, *token, *ledger, old(effects)@) {
            Err(e) => {
                &&& r == Err::<ExecutionSummary, GovernanceError>(e)
                &&& final(identity)@ == old(identity)@
                &&& final(effects)@ == old(effects)@
            },
            Ok(()) => {
                &&& r == Ok::<ExecutionSummary, GovernanceError>(
                    summary_of(old(identity)@, proposal@.action),
                )
                &&& final(identity)@ == old(identity)@.after(proposal@.action)
                &&& final(effects)@ == old(effects)@.without_deleted(proposal@.id)
            },
        },
{
    match proposal.check_execute(identity, token, ledger) {
        Err(e) => {
            return Err(e);
        },
        Ok(()) => {},
    }
    if !effects.succeeded() {
        return Err(GovernanceError::VersionConflict);
    }
    let summary = ExecutionSummary { identity: identity.id(), action: proposal.action().kind() };
    identity.carry_out(proposal.action());
    effects.forget_deleted(proposal.id());
    Ok(summary)
}

} // verus!
