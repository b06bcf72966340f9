//! Proposals: what they are, and what creating, approving and executing one
//! is allowed to do.
//!
//! A proposal is pending from its creation until a vote brings its votes up to
//! the committee's threshold; the transaction that records that vote also
//! carries the action out.  A proposal that has the votes can be executed by a
//! transaction of its own.  Once the ledger's epoch is past its expiration epoch
//! a proposal can no longer be acted on.  Votes are counted by the committee as
//! it stands when the transaction is built.

use crate::action::{Action, ActionKind, UpdateDidDocument};
use crate::committee::{
    all_distinct, contains_id, lemma_tally_push, lemma_tally_within_total,
    lemma_weight_within_total, weight_of,
};
use crate::error::GovernanceError;
use crate::identity::{ControllerToken, Identity, OnChainIdentity};
use crate::ledger::{check_lapse, lapse, LedgerState};
use crate::object_id::{copy_ids, ObjectId};
use crate::transaction::{ProgrammableTransaction, Transaction, TransactionKind};
use vstd::prelude::*;

verus! {

/// A proposal, as the mathematical value that contracts speak of.
pub struct ProposalData {
    pub id: ObjectId,
    /// The action that is proposed.  It never changes.
    pub action: Action,
    /// The last epoch in which the proposal can be acted on, if there is one.
    pub expiration_epoch: Option<u64>,
    /// The votes that the proposal has gathered.
    pub votes: u64,
    /// The controllers that have voted, in the order of their votes.
    pub voters: Seq<ObjectId>,
}

impl ProposalData {
    /// No controller has voted twice, and the action is well formed.
    pub open spec fn well_formed(self) -> bool {
        self.voters.no_duplicates() && self.action.well_formed()
    }

    /// The votes are what the identity's committee gives to the voters.
    pub open spec fn tallied_by(self, identity: Identity) -> bool {
        self.votes == identity.votes_of(self.voters)
    }

    /// The proposal as it is once `controller` has voted on it: the
    /// controller is the last of the voters, and the votes are counted anew.
    pub open spec fn approved_by(self, controller: ObjectId, identity: Identity) -> ProposalData {
        ProposalData {
            voters: self.voters.push(controller),
            votes: identity.votes_of(self.voters.push(controller)) as u64,
            ..self
        }
    }

    /// The proposal that `controller` creates on `identity`, once the ledger
    /// has given it the identifier `id`.
    pub open spec fn created_by(
        id: ObjectId,
        action: Action,
        expiration_epoch: Option<u64>,
        controller: ObjectId,
        identity: Identity,
    ) -> ProposalData {
        ProposalData {
            id,
            action,
            expiration_epoch,
            votes: weight_of(identity.controllers, controller) as u64,
            voters: seq![controller],
        }
    }
}

/// What creating a proposal leads to: whether the action is carried out at
/// once (`true`) or a pending proposal is recorded (`false`).  The token has to
/// be admitted by the identity; the action is carried out at once exactly when
/// the creator's own weight reaches the threshold.
pub open spec fn create_outcome(identity: Identity, token: ControllerToken) -> Result<
    bool,
    GovernanceError,
> {
    if !identity.admits(token) {
        Err(GovernanceError::Unauthorized)
    } else {
        Ok(weight_of(identity.controllers, token.controller_id) >= identity.threshold)
    }
}

/// What a vote on a proposal leads to: whether it brings the votes up to the
/// threshold, so that the action is carried out with it (`true`), or is only
/// recorded (`false`).  A controller votes once; the proposal must not have
/// lapsed; the token has to be admitted by the identity.  Where several of these
/// fail, the first in this order is reported.
pub open spec fn approve_outcome(
    proposal: ProposalData,
    identity: Identity,
    token: ControllerToken,
    ledger: LedgerState,
) -> Result<bool, GovernanceError> {
    if proposal.voters.contains(token.controller_id) {
        Err(GovernanceError::DuplicateVote)
    } else if let Some(reason) = lapse(proposal.expiration_epoch, ledger) {
        Err(reason)
    } else if !identity.admits(token) {
        Err(GovernanceError::Unauthorized)
    } else {
        Ok(identity.votes_of(proposal.voters.push(token.controller_id)) >= identity.threshold)
    }
}

/// Whether a proposal may be executed.  Its votes, counted by the committee as
/// it stands, have to reach the threshold; the proposal must not have lapsed;
/// the token has to be admitted by the identity.  Where several of these fail,
/// the first in this order is reported.
pub open spec fn execute_outcome(
    proposal: ProposalData,
    identity: Identity,
    token: ControllerToken,
    ledger: LedgerState,
) -> Result<(), GovernanceError> {
    if identity.votes_of(proposal.voters) < identity.threshold {
        Err(GovernanceError::ThresholdNotMet)
    } else if let Some(reason) = lapse(proposal.expiration_epoch, ledger) {
        Err(reason)
    } else if !identity.admits(token) {
        Err(GovernanceError::Unauthorized)
    } else {
        Ok(())
    }
}

/// The transaction that creates a proposal for `action`.
pub open spec fn create_transaction(
    action: Action,
    expiration_epoch: Option<u64>,
    identity: Identity,
    token: ControllerToken,
) -> Result<Transaction, GovernanceError> {
    match create_outcome(identity, token) {
        Err(e) => Err(e),
        Ok(executes) => Ok(
            Transaction {
                kind: if executes {
                    TransactionKind::ProposeAndExecute
                } else {
                    TransactionKind::Propose
                },
                identity: identity.id,
                controller: token.controller_id,
                proposal: None,
                action,
                expiration_epoch,
            },
        ),
    }
}

/// The transaction that records a vote on `proposal`.
pub open spec fn approve_transaction(
    proposal: ProposalData,
    identity: Identity,
    token: ControllerToken,
    ledger: LedgerState,
) -> Result<Transaction, GovernanceError> {
    match approve_outcome(proposal, identity, token, ledger) {
        Err(e) => Err(e),
        Ok(executes) => Ok(
            Transaction {
                kind: if executes {
                    TransactionKind::ApproveAndExecute
                } else {
                    TransactionKind::Approve
                },
                identity: identity.id,
                controller: token.controller_id,
                proposal: Some(proposal.id),
                action: proposal.action,
                expiration_epoch: proposal.expiration_epoch,
            },
        ),
    }
}

/// The transaction that executes `proposal`.
pub open spec fn execute_transaction(
    proposal: ProposalData,
    identity: Identity,
    token: ControllerToken,
    ledger: LedgerState,
) -> Result<Transaction, GovernanceError> {
    match execute_outcome(proposal, identity, token, ledger) {
        Err(e) => Err(e),
        Ok(()) => Ok(
            Transaction {
                kind: TransactionKind::Execute,
                identity: identity.id,
                controller: token.controller_id,
                proposal: Some(proposal.id),
                action: proposal.action,
                expiration_epoch: proposal.expiration_epoch,
            },
        ),
    }
}

/// Whether what was built is what was expected: the same transaction, or the
/// same failure.
pub open spec fn built_as(
    built: Result<ProgrammableTransaction, GovernanceError>,
    expected: Result<Transaction, GovernanceError>,
) -> bool {
    match (built, expected) {
        (Ok(tx), Ok(t)) => tx@ == t,
        (Err(e), Err(f)) => e == f,
        _ => false,
    }
}

/// What the execution of an action changed.
#[derive(Clone, Copy, Debug, PartialEq, Eq, Structural)]
pub struct ExecutionSummary {
    /// The identity that was changed.
    pub identity: ObjectId,
    /// The kind of action that was carried out on it.
    pub action: ActionKind,
}

/// The local mirror of a proposal that is pending on the ledger.
#[derive(Debug)]
pub struct Proposal {
    id: ObjectId,
    action: UpdateDidDocument,
    expiration_epoch: Option<u64>,
    votes: u64,
    voters: Vec<ObjectId>,
}

impl View for Proposal {
    type V = ProposalData;

    closed spec fn view(&self) -> ProposalData {
        ProposalData {
            id: self.id,
            action: self.action@,
            expiration_epoch: self.expiration_epoch,
            votes: self.votes,
            voters: self.voters@,
        }
    }
}

/// What became of a proposal: it is pending, or its action has been carried out.
#[derive(Debug)]
pub enum ProposalResult {
    Pending(Proposal),
    Executed(ExecutionSummary),
}

impl Proposal {
    /// What holds of every mirror: no controller occurs twice among the voters.
    #[verifier::type_invariant]
    pub open spec fn distinct_voters(&self) -> bool {
        self@.voters.no_duplicates()
    }

    /// Mirrors a proposal on `identity` as it was read from the ledger; its
    /// votes are those that the identity's committee gives to its voters.
    /// There is no proposal on which a controller has voted twice.
    pub fn new(
        id: ObjectId,
        action: UpdateDidDocument,
        expiration_epoch: Option<u64>,
        voters: Vec<ObjectId>,
        identity: &OnChainIdentity,
    ) -> (proposal: Option<Proposal>)
        ensures
            proposal is Some <==> voters@.no_duplicates(),
            proposal matches Some(p) ==> p@ == (ProposalData {
                id,
                action: action@,
                expiration_epoch,
                votes: identity@.votes_of(voters@) as u64,
                voters: voters@,
            }) && p@.well_formed() && p@.tallied_by(identity@),
    {
        if !all_distinct(&voters) {
            return None;
        }
        action.note_well_formed();
        proof {
            use_type_invariant(identity);
            lemma_tally_within_total(voters@, identity@.controllers);
        }
        let votes: u64 = identity.votes_of(&voters);
        Some(Proposal { id, action, expiration_epoch, votes, voters })
    }

    /// The proposal's identifier.
    pub fn id(&self) -> (id: ObjectId)
        ensures
            id == self@.id,
    {
        self.id
    }

    /// The action that is proposed.
    pub fn action(&self) -> (action: &UpdateDidDocument)
        ensures
            action@ == self@.action,
            self@.well_formed(),
    {
        proof {
            use_type_invariant(self);
        }
        self.action.note_well_formed();
        &self.action
    }

    /// The last epoch in which the proposal can be acted on, if there is one.
    pub fn expiration_epoch(&self) -> (epoch: Option<u64>)
        ensures
            epoch == self@.expiration_epoch,
    {
        self.expiration_epoch
    }

    /// The votes that the proposal has gathered.
    pub fn votes(&self) -> (votes: u64)
        ensures
            votes == self@.votes,
    {
        self.votes
    }

    /// The controllers that have voted, in the order of their votes.
    pub fn voters(&self) -> (voters: &Vec<ObjectId>)
        ensures
            voters@ == self@.voters,
            voters@.no_duplicates(),
    {
        proof {
            use_type_invariant(self);
        }
        &self.voters
    }
}

impl Proposal {
    /// Decides what creating a proposal on `identity` with `token` leads to.
    pub fn check_create(identity: &OnChainIdentity, token: &ControllerToken) -> (r: Result<
        bool,
        GovernanceError,
    >)
        ensures
            r == create_outcome(identity@, *token),
    {
        if !identity.admits(token) {
            return Err(GovernanceError::Unauthorized);
        }
        proof {
            use_type_invariant(identity);
            lemma_weight_within_total(identity@.controllers, token.controller_id);
        }
        match identity.controller_voting_power(token.controller_id) {
            Some(weight) => Ok(weight >= identity.threshold()),
            None => Err(GovernanceError::Unauthorized),
        }
    }

    /// Decides what a vote with `token` on this proposal leads to.
    pub fn check_approve(
        &self,
        identity: &OnChainIdentity,
        token: &ControllerToken,
        ledger: &LedgerState,
    ) -> (r: Result<bool, GovernanceError>)
        ensures
            r == approve_outcome(self@, identity@, *token, *ledger),
    {
        proof {
            use_type_invariant(self);
        }
        if contains_id(&self.voters, &token.controller_id) {
            return Err(GovernanceError::DuplicateVote);
        }
        if let Some(reason) = check_lapse(self.expiration_epoch, ledger) {
            return Err(reason);
        }
        if !identity.admits(token) {
            return Err(GovernanceError::Unauthorized);
        }
        proof {
            use_type_invariant(identity);
            let voters = self.voters@.push(token.controller_id);
            assert(voters.no_duplicates());
            lemma_tally_push(self.voters@, token.controller_id, identity@.controllers);
            lemma_tally_within_total(voters, identity@.controllers);
        }
        match identity.controller_voting_power(token.controller_id) {
            Some(weight) => {
                let votes: u64 = identity.votes_of(&self.voters) + weight;
                Ok(votes >= identity.threshold())
            },
            None => Err(GovernanceError::Unauthorized),
        }
    }

    /// Decides whether this proposal may be executed with `token`.
    pub fn check_execute(
        &self,
        identity: &OnChainIdentity,
        token: &ControllerToken,
        ledger: &LedgerState,
    ) -> (r: Result<(), GovernanceError>)
        ensures
            r == execute_outcome(self@, identity@, *token, *ledger),
    {
        proof {
            use_type_invariant(self);
        }
        if identity.votes_of(&self.voters) < identity.threshold() {
            return Err(GovernanceError::ThresholdNotMet);
        }
        if let Some(reason) = check_lapse(self.expiration_epoch, ledger) {
            return Err(reason);
        }
        if !identity.admits(token) {
            return Err(GovernanceError::Unauthorized);
        }
        Ok(())
    }

    /// Builds the transaction that creates a proposal for `action` on
    /// `identity`.  Where the creator's own weight reaches the threshold, the
    /// transaction carries the action out at once and no proposal is recorded.
    /// Nothing is changed by building it.
    pub fn create(
        action: UpdateDidDocument,
        expiration_epoch: Option<u64>,
        identity: &OnChainIdentity,
        token: &ControllerToken,
    ) -> (r: Result<ProgrammableTransaction, GovernanceError>)
        ensures
            built_as(r, create_transaction(action@, expiration_epoch, identity@, *token)),
    {
        match Proposal::check_create(identity, token) {
            Err(e) => Err(e),
            Ok(executes) => Ok(
                ProgrammableTransaction {
                    kind: if executes {
                        TransactionKind::ProposeAndExecute
                    } else {
                        TransactionKind::Propose
                    },
                    identity: identity.id(),
                    controller: token.controller_id,
                    proposal: None,
                    action,
                    expiration_epoch,
                },
            ),
        }
    }

    /// Builds the transaction that records the vote of `token`'s controller on
    /// this proposal.  Where the vote brings the votes up to the threshold, the
    /// same transaction carries the action out.  Nothing is changed by
    /// building it.
    pub fn approve(
        &self,
        identity: &OnChainIdentity,
        token: &ControllerToken,
        ledger: &LedgerState,
    ) -> (r: Result<ProgrammableTransaction, GovernanceError>)
        ensures
            built_as(r, approve_transaction(self@, identity@, *token, *ledger)),
    {
        match self.check_approve(identity, token, ledger) {
            Err(e) => Err(e),
            Ok(executes) => Ok(
                ProgrammableTransaction {
                    kind: if executes {
                        TransactionKind::ApproveAndExecute
                    } else {
                        TransactionKind::Approve
                    },
                    identity: identity.id(),
                    controller: token.controller_id,
                    proposal: Some(self.id),
                    action: self.action.duplicate(),
                    expiration_epoch: self.expiration_epoch,
                },
            ),
        }
    }

    /// Builds the transaction that carries the proposal's action out and
    /// removes the proposal from the ledger.
    pub fn into_tx(
        self,
        identity: &OnChainIdentity,
        token: &ControllerToken,
        ledger: &LedgerState,
    ) -> (r: Result<ProgrammableTransaction, GovernanceError>)
        ensures
            built_as(r, execute_transaction(self@, identity@, *token, *ledger)),
    {
        match self.check_execute(identity, token, ledger) {
            Err(e) => Err(e),
            Ok(()) => Ok(
                ProgrammableTransaction {
                    kind: TransactionKind::Execute,
                    identity: identity.id(),
                    controller: token.controller_id,
                    proposal: Some(self.id),
                    action: self.action,
                    expiration_epoch: self.expiration_epoch,
                },
            ),
        }
    }
}

impl Proposal {
    /// The proposal that `controller`, whose weight is `weight`, has just created.
    pub(crate) fn first_vote(
        id: ObjectId,
        action: UpdateDidDocument,
        expiration_epoch: Option<u64>,
        controller: ObjectId,
        weight: u64,
    ) -> (proposal: Proposal)
        ensures
            proposal@ == (ProposalData {
                id,
                action: action@,
                expiration_epoch,
                votes: weight,
                voters: seq![controller],
            }),
            proposal@.well_formed(),
    {
        action.note_well_formed();
        let mut voters: Vec<ObjectId> = Vec::new();
        voters.push(controller);
        assert(voters@ =~= seq![controller]);
        Proposal { id, action, expiration_epoch, votes: weight, voters }
    }

    /// Records the vote of `controller`, with which the votes come to `votes`.
    pub(crate) fn record_vote(&mut self, controller: ObjectId, votes: u64)
        requires
            !old(self)@.voters.contains(controller),
        ensures
            final(self)@ == (ProposalData {
                voters: old(self)@.voters.push(controller),
                votes,
                ..old(self)@
            }),
            final(self)@.well_formed(),
    {
        proof {
            use_type_invariant(&*self);
        }
        self.action.note_well_formed();
        let mut voters = copy_ids(&self.voters);
        voters.push(controller);
        self.votes = votes;
        self.voters = voters;
    }

    /// A copy of the proposal.
    pub fn duplicate(&self) -> (copy: Proposal)
        ensures
            copy@ == self@,
    {
        proof {
            use_type_invariant(self);
        }
        Proposal {
            id: self.id,
            action: self.action.duplicate(),
            expiration_epoch: self.expiration_epoch,
            votes: self.votes,
            voters: copy_ids(&self.voters),
        }
    }
}

} // verus!
