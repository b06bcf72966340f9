//! What the library is told about the ledger: the state that was read from it
//! before a transaction is built, and the effects that it reports once a
//! transaction has been submitted.

use crate::error::GovernanceError;
use crate::object_id::ObjectId;
use vstd::prelude::*;

verus! {

/// What one read of the ledger returned.  The library never queries the ledger
/// itself; its caller does, and passes on what came back.
#[derive(Clone, Copy, Debug)]
pub struct LedgerState {
    /// The ledger's current epoch, or nothing where it could not be read.
    pub epoch: Option<u64>,
}

impl LedgerState {
    /// The state of a ledger that is in epoch `epoch`.
    pub fn at_epoch(epoch: u64) -> (state: LedgerState)
        ensures
            state.epoch == Some(epoch),
    {
        LedgerState { epoch: Some(epoch) }
    }

    /// The state of a ledger that could not be read.
    pub fn unavailable() -> (state: LedgerState)
        ensures
            state.epoch is None,
    {
        LedgerState { epoch: None }
    }
}

/// Why a proposal with the given expiration epoch cannot be acted on in the
/// given state of the ledger, if it cannot: it has expired once the ledger's
/// epoch is past its expiration epoch, and where it can expire the epoch has to
/// be known.  A proposal without an expiration epoch never lapses.
pub open spec fn lapse(expiration_epoch: Option<u64>, ledger: LedgerState) -> Option<
    GovernanceError,
> {
    match expiration_epoch {
        None => None,
        Some(last) => match ledger.epoch {
            None => Some(GovernanceError::ClientError),
            Some(now) => if now > last {
                Some(GovernanceError::Expired)
            } else {
                None
            },
        },
    }
}

/// Computes [`lapse`].
pub fn check_lapse(expiration_epoch: Option<u64>, ledger: &LedgerState) -> (reason: Option<
    GovernanceError,
>)
    ensures
        reason == lapse(expiration_epoch, *ledger),
{
    match expiration_epoch {
        None => None,
        Some(last) => match ledger.epoch {
            None => Some(GovernanceError::ClientError),
            Some(now) => if now > last {
                Some(GovernanceError::Expired)
            } else {
                None
            },
        },
    }
}

/// Whether the ledger carried a transaction out.
#[derive(Clone, Copy, Debug, PartialEq, Eq, Structural)]
pub enum ExecutionStatus {
    /// The transaction was executed and its changes are part of the ledger.
    Success,
    /// The transaction changed nothing: the ledger had moved on from the state
    /// it was built against.
    Failure,
}

/// The effects of a transaction, as the mathematical value that contracts speak of.
pub struct Effects {
    pub status: ExecutionStatus,
    /// The objects the transaction created, in the order of their creation.
    pub created: Seq<ObjectId>,
    /// The objects the transaction deleted.
    pub deleted: Seq<ObjectId>,
}

/// `ids` without any occurrence of `id`, the others in their order.
pub open spec fn without(ids: Seq<ObjectId>, id: ObjectId) -> Seq<ObjectId>
    decreases ids.len(),
{
    if ids.len() == 0 {
        ids
    } else if ids.last() == id {
        without(ids.drop_last(), id)
    } else {
        without(ids.drop_last(), id).push(ids.last())
    }
}

impl Effects {
    /// The effects that are left once the first created object has been accounted for.
    pub open spec fn without_first_created(self) -> Effects {
        Effects { created: self.created.drop_first(), ..self }
    }

    /// The effects that are left once the deletion of `id` has been accounted for.
    pub open spec fn without_deleted(self, id: ObjectId) -> Effects {
        Effects { deleted: without(self.deleted, id), ..self }
    }
}

/// What the ledger reports of a submitted transaction.  Applying a step of the
/// transaction takes out what that step accounts for and leaves the rest as it
/// is, so that several steps of one transaction can be applied in turn.
#[derive(Debug)]
pub struct TransactionEffects {
    pub status: ExecutionStatus,
    pub created: Vec<ObjectId>,
    pub deleted: Vec<ObjectId>,
}

impl View for TransactionEffects {
    type V = Effects;

    open spec fn view(&self) -> Effects {
        Effects { status: self.status, created: self.created@, deleted: self.deleted@ }
    }
}

impl TransactionEffects {
    /// The effects of a transaction with the given outcome.
    pub fn new(status: ExecutionStatus, created: Vec<ObjectId>, deleted: Vec<ObjectId>) -> (effects:
        TransactionEffects)
        ensures
            effects@ == (Effects { status, created: created@, deleted: deleted@ }),
    {
        TransactionEffects { status, created, deleted }
    }

    /// Whether the ledger carried the transaction out.
    pub fn succeeded(&self) -> (ok: bool)
        ensures
            ok == (self@.status == ExecutionStatus::Success),
    {
        match self.status {
            ExecutionStatus::Success => true,
            ExecutionStatus::Failure => false,
        }
    }

    /// Takes out the first created object.
    pub(crate) fn take_first_created(&mut self) -> (id: ObjectId)
        requires
            old(self)@.created.len() > 0,
        ensures
            id == old(self)@.created[0],
            final(self)@ == old(self)@.without_first_created(),
    {
        let id = self.created.remove(0);
        assert(self.created@ =~= old(self)@.created.drop_first());
        id
    }

    /// Takes out every record of the deletion of `id`.
    pub(crate) fn forget_deleted(&mut self, id: ObjectId)
        ensures
            final(self)@ == old(self)@.without_deleted(id),
    {
        let mut kept: Vec<ObjectId> = Vec::new();
        let mut i: usize = 0;
        while i < self.deleted.len()
            invariant
                i <= self.deleted.len(),
                self.deleted@ == old(self).deleted@,
                self.status == old(self).status,
                self.created@ == old(self).created@,
                kept@ == without(self.deleted@.take(i as int), id),
            decreases self.deleted.len() - i,
        {
            proof {
                assert(self.deleted@.take(i + 1).drop_last() == self.deleted@.take(i as int));
            }
            if !self.deleted[i].same(&id) {
                kept.push(self.deleted[i]);
            }
            i += 1;
        }
        proof {
            assert(self.deleted@.take(i as int) == self.deleted@);
        }
        self.deleted = kept;
    }
}

} // verus!
