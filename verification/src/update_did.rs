//! Updating, deactivating and deleting an identity, one attempt at a time.
//!
//! An attempt is a value that knows what is to be done and in whose name.  It
//! is given the mirrors of the identity and the state of the ledger when its
//! transaction is built, and again, with the effects that the ledger reported,
//! when these are applied.  Whoever shares the mirrors between several callers
//! holds them exclusively from the read of the ledger to the end of `apply`.

use crate::action::{Action, UpdateDidDocument};
use crate::applier::{
    apply_approve, apply_create, apply_execute, approve_application, create_application,
    execute_application,
};
use crate::error::GovernanceError;
use crate::identity::{ControllerToken, Identity, OnChainIdentity};
use crate::ledger::{Effects, LedgerState, TransactionEffects};
use crate::object_id::{copy_ids, ObjectId};
use crate::proposal::{
    approve_transaction, create_transaction, execute_transaction, Proposal, ProposalData,
    ProposalResult,
};
use crate::transaction::{ProgrammableTransaction, Transaction};
use vstd::prelude::*;

verus! {

/// The bytes in which a transaction is submitted, where there is one and it
/// can be encoded.  A transaction that cannot be encoded stands for an action
/// that cannot be written down.
pub open spec fn payload(transaction: Result<Transaction, GovernanceError>) -> Result<
    Seq<u8>,
    GovernanceError,
> {
    match transaction {
        Err(e) => Err(e),
        Ok(tx) => if tx.encodable() {
            Ok(tx.encoding())
        } else {
            Err(GovernanceError::MalformedAction)
        },
    }
}

/// Whether what was built is what was expected: the same bytes, or the same
/// failure.
pub open spec fn encoded_as(
    built: Result<Vec<u8>, GovernanceError>,
    expected: Result<Seq<u8>, GovernanceError>,
) -> bool {
    match (built, expected) {
        (Ok(bytes), Ok(s)) => bytes@ == s,
        (Err(e), Err(f)) => e == f,
        _ => false,
    }
}

/// Encodes a transaction that was built, or hands its failure on.
pub fn encode(transaction: Result<ProgrammableTransaction, GovernanceError>) -> (r: Result<
    Vec<u8>,
    GovernanceError,
>)
    ensures
        match transaction {
            Ok(tx) => encoded_as(r, payload(Ok(tx@))),
            Err(e) => r == Err::<Vec<u8>, GovernanceError>(e),
        },
{
    match transaction {
        Ok(tx) => tx.to_bytes(),
        Err(e) => Err(e),
    }
}

/// The action of a proposal.
#[derive(Debug)]
pub struct WasmUpdateDid(pub UpdateDidDocument);

impl WasmUpdateDid {
    /// Whether the action deactivates the identity.  This goes by the kind of
    /// the action, not by the bytes it carries.
    pub fn is_deactivation(&self) -> (b: bool)
        ensures
            b == (self.0@ is Deactivate),
    {
        match &self.0 {
            UpdateDidDocument::Deactivate => true,
            UpdateDidDocument::Update(_) => false,
            UpdateDidDocument::Delete => false,
        }
    }

    /// The packed bytes of the new document, where the action is an update.
    pub fn did_document(&self) -> (document: Option<Vec<u8>>)
        ensures
            match self.0@ {
                Action::Update(bytes) => document matches Some(d) && d@ == bytes,
                Action::Deactivate => document is None,
                Action::Delete => document is None,
            },
    {
        match self.0.did_document_bytes() {
            Some(bytes) => {
                let copy = bytes.clone();
                assert(copy@ =~= bytes@);
                Some(copy)
            },
            None => None,
        }
    }
}

/// A proposal that is pending.
#[derive(Debug)]
pub struct WasmProposalUpdateDid(pub Proposal);

impl WasmProposalUpdateDid {
    /// The proposal's identifier.
    pub fn id(&self) -> (id: ObjectId)
        ensures
            id == self.0@.id,
    {
        self.0.id()
    }

    /// The action that is proposed.
    pub fn action(&self) -> (action: WasmUpdateDid)
        ensures
            action.0@ == self.0@.action,
    {
        WasmUpdateDid(self.0.action().duplicate())
    }

    /// The last epoch in which the proposal can be acted on, if there is one.
    pub fn expiration_epoch(&self) -> (epoch: Option<u64>)
        ensures
            epoch == self.0@.expiration_epoch,
    {
        self.0.expiration_epoch()
    }

    /// The votes that the proposal has gathered.
    pub fn votes(&self) -> (votes: u64)
        ensures
            votes == self.0@.votes,
    {
        self.0.votes()
    }

    /// The controllers that have voted, each once, in the order of their votes.
    pub fn voters(&self) -> (voters: Vec<ObjectId>)
        ensures
            voters@ == self.0@.voters,
            voters@.no_duplicates(),
    {
        copy_ids(self.0.voters())
    }

    /// The attempt of `controller_token`'s holder to vote on the proposal.
    pub fn approve(self, controller_token: &ControllerToken) -> (attempt:
        WasmApproveUpdateDidDocumentProposal)
        ensures
            attempt.proposal.0@ == self.0@,
            attempt.controller_token == *controller_token,
    {
        WasmApproveUpdateDidDocumentProposal::new(self, controller_token)
    }

    /// The attempt of `controller_token`'s holder to execute the proposal.
    pub fn into_tx(self, controller_token: &ControllerToken) -> (attempt:
        WasmExecuteUpdateDidDocumentProposal)
        ensures
            attempt.proposal.0@ == self.0@,
            attempt.controller_token == *controller_token,
    {
        WasmExecuteUpdateDidDocumentProposal::new(self, controller_token)
    }
}

/// An attempt to vote on a proposal.
#[derive(Debug)]
pub struct WasmApproveUpdateDidDocumentProposal {
    pub proposal: WasmProposalUpdateDid,
    pub controller_token: ControllerToken,
}

impl WasmApproveUpdateDidDocumentProposal {
    fn new(proposal: WasmProposalUpdateDid, controller_token: &ControllerToken) -> (attempt: Self)
        ensures
            attempt.proposal.0@ == proposal.0@,
            attempt.controller_token == *controller_token,
    {
        WasmApproveUpdateDidDocumentProposal { proposal, controller_token: *controller_token }
    }

    /// Builds the transaction that casts the vote and returns the bytes in
    /// which it is submitted.  Nothing is changed by building it.
    pub fn build_programmable_transaction(
        &self,
        identity: &OnChainIdentity,
        ledger: &LedgerState,
    ) -> (r: Result<Vec<u8>, GovernanceError>)
        ensures
            encoded_as(
                r,
                payload(
                    approve_transaction(
                        self.proposal.0@,
                        identity@,
                        self.controller_token,
                        *ledger,
                    ),
                ),
            ),
    {
        encode(self.proposal.0.approve(identity, &self.controller_token, ledger))
    }

    /// Applies the effects that the ledger reported of the transaction.  The
    /// result is the proposal with the vote recorded where it is still pending,
    /// and nothing where the vote brought the votes up to the threshold and the
    /// action was carried out on the identity.  Where it fails, the identity
    /// and the effects are as they were.
    pub fn apply(
        self,
        identity: &mut OnChainIdentity,
        effects: &mut TransactionEffects,
        ledger: &LedgerState,
    ) -> (r: Result<Option<WasmProposalUpdateDid>, GovernanceError>)
        ensures
            match approve_application(
                self.proposal.0@,
                old(identity)@,
                self.controller_token,
                *ledger,
                old(effects)@,
            ) {
                Err(e) => {
                    &&& r matches Err(x) && x == e
                    &&& final(identity)@ == old(identity)@
                    &&& final(effects)@ == old(effects)@
                },
                Ok(true) => {
                    &&& r matches Ok(None)
                    &&& final(identity)@ == old(identity)@.after(self.proposal.0@.action)
                    &&& final(effects)@ == old(effects)@.without_deleted(self.proposal.0@.id)
                },
                Ok(false) => {
                    &&& r matches Ok(Some(pending)) && pending.0@
                        == self.proposal.0@.approved_by(
                        self.controller_token.controller_id,
                        old(identity)@,
                    ) && pending.0@.well_formed() && pending.0@.tallied_by(old(identity)@)
                    &&& final(identity)@ == old(identity)@
                    &&& final(effects)@ == old(effects)@
                },
            },
    {
        let mut proposal = self.proposal.0;
        match apply_approve(&mut proposal, identity, &self.controller_token, ledger, effects) {
            Err(e) => Err(e),
            Ok(Some(_)) => Ok(None),
            Ok(None) => Ok(Some(WasmProposalUpdateDid(proposal))),
        }
    }
}

/// An attempt to execute a proposal.
#[derive(Debug)]
pub struct WasmExecuteUpdateDidDocumentProposal {
    pub proposal: WasmProposalUpdateDid,
    pub controller_token: ControllerToken,
}

impl WasmExecuteUpdateDidDocumentProposal {
    /// The attempt of `controller_token`'s holder to execute `proposal`.
    pub fn new(proposal: WasmProposalUpdateDid, controller_token: &ControllerToken) -> (attempt:
        Self)
        ensures
            attempt.proposal.0@ == proposal.0@,
            attempt.controller_token == *controller_token,
    {
        WasmExecuteUpdateDidDocumentProposal { proposal, controller_token: *controller_token }
    }

    /// Builds the transaction that executes the proposal and returns the bytes
    /// in which it is submitted.  Nothing is changed by building it.
    pub fn build_programmable_transaction(
        &self,
        identity: &OnChainIdentity,
        ledger: &LedgerState,
    ) -> (r: Result<Vec<u8>, GovernanceError>)
        ensures
            encoded_as(
                r,
                payload(
                    execute_transaction(
                        self.proposal.0@,
                        identity@,
                        self.controller_token,
                        *ledger,
                    ),
                ),
            ),
    {
        encode(self.proposal.0.duplicate().into_tx(identity, &self.controller_token, ledger))
    }

    /// Applies the effects that the ledger reported of the transaction: the
    /// action has been carried out on the identity.  Where it fails, the
    /// identity and the effects are as they were.
    pub fn apply(
        self,
        identity: &mut OnChainIdentity,
        effects: &mut TransactionEffects,
        ledger: &LedgerState,
    ) -> (r: Result<(), GovernanceError>)
        ensures
            match execute_application(
                self.proposal.0@,
                old(identity)@,
                self.controller_token,
                *ledger,
                old(effects)@,
            ) {
                Err(e) => {
                    &&& r == Err::<(), GovernanceError>(e)
                    &&& final(identity)@ == old(identity)@
                    &&& final(effects)@ == old(effects)@
                },
                Ok(()) => {
                    &&& r == Ok::<(), GovernanceError>(())
                    &&& final(identity)@ == old(identity)@.after(self.proposal.0@.action)
                    &&& final(effects)@ == old(effects)@.without_deleted(self.proposal.0@.id)
                },
            },
    {
        match apply_execute(self.proposal.0, identity, &self.controller_token, ledger, effects) {
            Err(e) => Err(e),
            Ok(_) => Ok(()),
        }
    }
}

/// The action that an attempt to create a proposal asks for: the update to
/// the document it was given, which must not be empty; failing a document, the
/// deletion where that was asked for, and the deactivation otherwise.
pub open spec fn requested_action(updated_did_doc: Option<Seq<u8>>, delete: bool) -> Result<
    Action,
    GovernanceError,
> {
    match updated_did_doc {
        Some(bytes) => if bytes.len() == 0 {
            Err(GovernanceError::MalformedAction)
        } else {
            Ok(Action::Update(bytes))
        },
        None => if delete {
            Ok(Action::Delete)
        } else {
            Ok(Action::Deactivate)
        },
    }
}

/// An attempt to create a proposal.
#[derive(Debug)]
pub struct WasmCreateUpdateDidProposal {
    pub updated_did_doc: Option<Vec<u8>>,
    pub controller_token: ControllerToken,
    pub delete: bool,
    pub expiration_epoch: Option<u64>,
}

impl WasmCreateUpdateDidProposal {
    /// The document that the attempt carries, as a sequence of bytes.
    pub open spec fn document(self) -> Option<Seq<u8>> {
        match self.updated_did_doc {
            Some(bytes) => Some(bytes@),
            None => None,
        }
    }

    /// The action that the attempt asks for.
    pub open spec fn requested(self) -> Result<Action, GovernanceError> {
        requested_action(self.document(), self.delete)
    }

    /// The attempt to propose that the identity's document become `updated_did_doc`.
    pub fn new(
        updated_did_doc: Vec<u8>,
        controller_token: ControllerToken,
        expiration_epoch: Option<u64>,
    ) -> (attempt: Self)
        ensures
            attempt.document() == Some(updated_did_doc@),
            attempt.delete == false,
            attempt.controller_token == controller_token,
            attempt.expiration_epoch == expiration_epoch,
    {
        WasmCreateUpdateDidProposal {
            updated_did_doc: Some(updated_did_doc),
            delete: false,
            expiration_epoch,
            controller_token,
        }
    }

    /// The attempt to propose that the identity be deactivated.
    pub fn deactivate(controller_token: ControllerToken, expiration_epoch: Option<u64>) -> (attempt:
        Self)
        ensures
            attempt.document() is None,
            attempt.delete == false,
            attempt.requested() == Ok::<Action, GovernanceError>(Action::Deactivate),
            attempt.controller_token == controller_token,
            attempt.expiration_epoch == expiration_epoch,
    {
        WasmCreateUpdateDidProposal {
            expiration_epoch,
            updated_did_doc: None,
            delete: false,
            controller_token,
        }
    }

    /// The attempt to propose that the identity be deleted.
    pub fn delete(controller_token: &ControllerToken, expiration_epoch: Option<u64>) -> (attempt:
        Self)
        ensures
            attempt.document() is None,
            attempt.delete == true,
            attempt.requested() == Ok::<Action, GovernanceError>(Action::Delete),
            attempt.controller_token == *controller_token,
            attempt.expiration_epoch == expiration_epoch,
    {
        WasmCreateUpdateDidProposal {
            expiration_epoch,
            updated_did_doc: None,
            delete: true,
            controller_token: *controller_token,
        }
    }

    /// Writes down the action that the attempt asks for.
    pub fn action(&self) -> (r: Result<UpdateDidDocument, GovernanceError>)
        ensures
            match self.requested() {
                Ok(action) => r matches Ok(a) && a@ == action,
                Err(e) => r matches Err(x) && x == e,
            },
    {
        match &self.updated_did_doc {
            Some(bytes) => {
                let copy = bytes.clone();
                assert(copy@ =~= bytes@);
                UpdateDidDocument::new(copy)
            },
            None => if self.delete {
                Ok(UpdateDidDocument::delete())
            } else {
                Ok(UpdateDidDocument::deactivate())
            },
        }
    }

    /// The transaction that the attempt leads to on `identity`.
    pub open spec fn transaction(self, identity: Identity) -> Result<
        Transaction,
        GovernanceError,
    > {
        match self.requested() {
            Err(e) => Err(e),
            Ok(action) => create_transaction(
                action,
                self.expiration_epoch,
                identity,
                self.controller_token,
            ),
        }
    }

    /// Whether the effects of the attempt's transaction can be applied, and
    /// whether the action was carried out with it.
    pub open spec fn application(self, identity: Identity, effects: Effects) -> Result<
        bool,
        GovernanceError,
    > {
        match self.requested() {
            Err(e) => Err(e),
            Ok(_) => create_application(identity, self.controller_token, effects),
        }
    }

    /// Builds the transaction that creates the proposal, or carries its action
    /// out at once where the creator's weight reaches the threshold, and
    /// returns the bytes in which it is submitted.  Nothing is changed by
    /// building it.
    pub fn build_programmable_transaction(&self, identity: &OnChainIdentity) -> (r: Result<
        Vec<u8>,
        GovernanceError,
    >)
        ensures
            encoded_as(r, payload(self.transaction(identity@))),
    {
        let action = match self.action() {
            Ok(action) => action,
            Err(e) => {
                return Err(e);
            },
        };
        encode(Proposal::create(action, self.expiration_epoch, identity, &self.controller_token))
    }

    /// Applies the effects that the ledger reported of the transaction.  The
    /// result is the pending proposal, or nothing where the action was carried
    /// out on the identity at once.  Where it fails, the identity and the
    /// effects are as they were.
    pub fn apply(self, identity: &mut OnChainIdentity, effects: &mut TransactionEffects) -> (r:
        Result<Option<WasmProposalUpdateDid>, GovernanceError>)
        ensures
            match self.application(old(identity)@, old(effects)@) {
                Err(e) => {
                    &&& r matches Err(x) && x == e
                    &&& final(identity)@ == old(identity)@
                    &&& final(effects)@ == old(effects)@
                },
                Ok(true) => {
                    &&& r matches Ok(None)
                    &&& final(identity)@ == old(identity)@.after(self.requested()->Ok_0)
                    &&& final(effects)@ == old(effects)@
                },
                Ok(false) => {
                    &&& r matches Ok(Some(pending)) && pending.0@ == ProposalData::created_by(
                        old(effects)@.created[0],
                        self.requested()->Ok_0,
                        self.expiration_epoch,
                        self.controller_token.controller_id,
                        old(identity)@,
                    ) && pending.0@.well_formed() && pending.0@.tallied_by(old(identity)@)
                    &&& final(identity)@ == old(identity)@
                    &&& final(effects)@ == old(effects)@.without_first_created()
                },
            },
    {
        let action = match self.action() {
            Ok(action) => action,
            Err(e) => {
                return Err(e);
            },
        };
        match apply_create(
            action,
            self.expiration_epoch,
            identity,
            &self.controller_token,
            effects,
        ) {
            Err(e) => Err(e),
            Ok(ProposalResult::Pending(proposal)) => Ok(Some(WasmProposalUpdateDid(proposal))),
            Ok(ProposalResult::Executed(_)) => Ok(None),
        }
    }
}

} // verus!
