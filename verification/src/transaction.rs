//! Transactions: what the library asks the ledger to do, and the bytes in
//! which the request is handed over.

use crate::action::{kind_of, Action, ActionKind, UpdateDidDocument};
use crate::error::GovernanceError;
use crate::object_id::ObjectId;
use vstd::prelude::*;

verus! {

/// What a transaction does to a proposal.
#[derive(Clone, Copy, Debug, PartialEq, Eq, Structural)]
pub enum TransactionKind {
    /// Records a new proposal with its creator's vote.
    Propose,
    /// Carries the action out at once, the creator's vote being enough.
    ProposeAndExecute,
    /// Records one more vote on a proposal.
    Approve,
    /// Records one more vote, which is enough, and carries the action out.
    ApproveAndExecute,
    /// Carries the action of a proposal out and removes the proposal.
    Execute,
}

/// A transaction, as the mathematical value that contracts speak of.
pub struct Transaction {
    pub kind: TransactionKind,
    /// The identity that the transaction acts on.
    pub identity: ObjectId,
    /// The controller in whose name it is sent.
    pub controller: ObjectId,
    /// The proposal that it votes on or executes; none where it creates one.
    pub proposal: Option<ObjectId>,
    /// The action of the proposal.
    pub action: Action,
    /// The last epoch in which the proposal can be acted on, if there is one.
    pub expiration_epoch: Option<u64>,
}

/// A transaction that has been built and not yet submitted.
#[derive(Debug)]
pub struct ProgrammableTransaction {
    pub kind: TransactionKind,
    pub identity: ObjectId,
    pub controller: ObjectId,
    pub proposal: Option<ObjectId>,
    pub action: UpdateDidDocument,
    pub expiration_epoch: Option<u64>,
}

impl View for ProgrammableTransaction {
    type V = Transaction;

    open spec fn view(&self) -> Transaction {
        Transaction {
            kind: self.kind,
            identity: self.identity,
            controller: self.controller,
            proposal: self.proposal,
            action: self.action@,
            expiration_epoch: self.expiration_epoch,
        }
    }
}

/// The version of the layout in which transactions are encoded.
pub const SCHEMA_VERSION: u8 = 1;

/// The longest sequence that the encoding can hold.
pub const MAX_SEQUENCE_LENGTH: usize = 0x7fff_ffff;

/// The number that stands for a kind of transaction in the encoding.
pub open spec fn kind_tag(kind: TransactionKind) -> u8 {
    match kind {
        TransactionKind::Propose => 0,
        TransactionKind::ProposeAndExecute => 1,
        TransactionKind::Approve => 2,
        TransactionKind::ApproveAndExecute => 3,
        TransactionKind::Execute => 4,
    }
}

/// The number that stands for a kind of action in the encoding.
pub open spec fn action_tag(kind: ActionKind) -> u8 {
    match kind {
        ActionKind::Update => 0,
        ActionKind::Deactivate => 1,
        ActionKind::Delete => 2,
    }
}

/// The halves of an identifier, as they are encoded.
pub open spec fn halves(id: ObjectId) -> (u128, u128) {
    (id.hi, id.lo)
}

/// The halves of an identifier that may be absent.
pub open spec fn optional_halves(id: Option<ObjectId>) -> Option<(u128, u128)> {
    match id {
        Some(id) => Some(halves(id)),
        None => None,
    }
}

/// The BCS encoding of the tuple of these eight values, in this order: what
/// `bcs::to_bytes` returns for it.  Equal values have equal encodings.
pub uninterp spec fn bcs_bytes(
    version: u8,
    kind: u8,
    identity: (u128, u128),
    controller: (u128, u128),
    proposal: Option<(u128, u128)>,
    action: u8,
    document: Seq<u8>,
    expiration_epoch: Option<u64>,
) -> Seq<u8>;

impl Transaction {
    /// Whether the transaction can be encoded: its document, if it has one,
    /// is no longer than the encoding allows a sequence to be.
    pub open spec fn encodable(self) -> bool {
        match self.action {
            Action::Update(bytes) => bytes.len() <= MAX_SEQUENCE_LENGTH,
            Action::Deactivate => true,
            Action::Delete => true,
        }
    }

    /// The bytes that stand for the transaction: the encoding of the schema
    /// version, the kind, the identity, the controller, the proposal, the kind
    /// of action, the document (empty unless the action is an update) and the
    /// expiration epoch.
    pub open spec fn encoding(self) -> Seq<u8> {
        bcs_bytes(
            SCHEMA_VERSION,
            kind_tag(self.kind),
            halves(self.identity),
            halves(self.controller),
            optional_halves(self.proposal),
            action_tag(kind_of(self.action)),
            match self.action {
                Action::Update(bytes) => bytes,
                Action::Deactivate => Seq::empty(),
                Action::Delete => Seq::empty(),
            },
            self.expiration_epoch,
        )
    }
}

/// The error of the `bcs` crate.  Nothing is known of its values but that they
/// are failures.
#[verifier::external_type_specification]
#[verifier::external_body]
pub struct ExBcsError(bcs::Error);

/// Calls `bcs::to_bytes` on the tuple of the arguments, identifiers given as
/// pairs of their halves.  The serializer writes into memory and refuses a
/// value only for a sequence that is longer than `bcs::MAX_SEQUENCE_LENGTH`;
/// the document is the only sequence here.
#[verifier::external_body]
fn bcs_to_bytes(
    version: u8,
    kind: u8,
    identity: ObjectId,
    controller: ObjectId,
    proposal: Option<ObjectId>,
    action: u8,
    document: &Vec<u8>,
    expiration_epoch: Option<u64>,
) -> (r: Result<Vec<u8>, bcs::Error>)
    ensures
        r is Ok <==> document@.len() <= MAX_SEQUENCE_LENGTH,
        r matches Ok(bytes) ==> bytes@ == bcs_bytes(
            version,
            kind,
            halves(identity),
            halves(controller),
            optional_halves(proposal),
            action,
            document@,
            expiration_epoch,
        ),
{
    bcs::to_bytes(
        &(
            version,
            kind,
            (identity.hi, identity.lo),
            (controller.hi, controller.lo),
            proposal.map(|id| (id.hi, id.lo)),
            action,
            document,
            expiration_epoch,
        ),
    )
}

/// What the encoder's answer means to the caller: the bytes, or, where the
/// encoder refused the value, that the action cannot be written down.
pub fn encoded(answer: Result<Vec<u8>, bcs::Error>) -> (r: Result<Vec<u8>, GovernanceError>)
    ensures
        answer matches Ok(bytes) ==> r == Ok::<Vec<u8>, GovernanceError>(bytes),
        answer is Err ==> r == Err::<Vec<u8>, GovernanceError>(GovernanceError::MalformedAction),
{
    match answer {
        Ok(bytes) => Ok(bytes),
        Err(_) => Err(GovernanceError::MalformedAction),
    }
}

impl TransactionKind {
    /// The number that stands for this kind in the encoding.
    pub fn tag(&self) -> (tag: u8)
        ensures
            tag == kind_tag(*self),
    {
        match self {
            TransactionKind::Propose => 0,
            TransactionKind::ProposeAndExecute => 1,
            TransactionKind::Approve => 2,
            TransactionKind::ApproveAndExecute => 3,
            TransactionKind::Execute => 4,
        }
    }

    /// Whether a transaction of this kind carries the action out.
    pub open spec fn executes(self) -> bool {
        self == TransactionKind::ProposeAndExecute || self == TransactionKind::ApproveAndExecute
            || self == TransactionKind::Execute
    }
}

impl ActionKind {
    /// The number that stands for this kind in the encoding.
    pub fn tag(&self) -> (tag: u8)
        ensures
            tag == action_tag(*self),
    {
        match self {
            ActionKind::Update => 0,
            ActionKind::Deactivate => 1,
            ActionKind::Delete => 2,
        }
    }
}

impl ProgrammableTransaction {
    /// The bytes in which the transaction is submitted.  The same transaction
    /// always gives the same bytes.  Fails with [`GovernanceError::MalformedAction`]
    /// exactly when the transaction cannot be encoded.
    pub fn to_bytes(&self) -> (r: Result<Vec<u8>, GovernanceError>)
        ensures
            r is Ok <==> self@.encodable(),
            r matches Ok(bytes) ==> bytes@ == self@.encoding(),
            r matches Err(e) ==> e == GovernanceError::MalformedAction,
    {
        let none: Vec<u8> = Vec::new();
        let document: &Vec<u8> = match self.action.did_document_bytes() {
            Some(bytes) => bytes,
            None => &none,
        };
        let answer = bcs_to_bytes(
            SCHEMA_VERSION,
            self.kind.tag(),
            self.identity,
            self.controller,
            self.proposal,
            self.action.kind().tag(),
            document,
            self.expiration_epoch,
        );
        encoded(answer)
    }
}

} // verus!
