//! The local mirror of an on-chain identity, and the tokens that give access to it.

use crate::action::{Action, UpdateDidDocument};
use crate::committee::{
    checked_total_weight, distinct_members, is_member, lookup_voting_power, members_distinct,
    tally, tally_votes, total_weight, voting_power, Controller,
};
use crate::object_id::ObjectId;
use vstd::prelude::*;

verus! {

/// A capability: whoever holds it acts as the controller `controller_id` of
/// the identity `controller_of`, and of no other.
#[derive(Clone, Copy, Debug, PartialEq, Eq, Structural)]
pub struct ControllerToken {
    pub controller_id: ObjectId,
    pub controller_of: ObjectId,
}

impl ControllerToken {
    /// The token of the controller `controller_id` for the identity `controller_of`.
    pub fn new(controller_id: ObjectId, controller_of: ObjectId) -> (token: ControllerToken)
        ensures
            token == (ControllerToken { controller_id, controller_of }),
    {
        ControllerToken { controller_id, controller_of }
    }

    /// The controller this token stands for.
    pub fn controller_id(&self) -> (id: ObjectId)
        ensures
            id == self.controller_id,
    {
        self.controller_id
    }

    /// The identity this token gives access to.
    pub fn controller_of(&self) -> (id: ObjectId)
        ensures
            id == self.controller_of,
    {
        self.controller_of
    }
}

/// What an identity is, as the mathematical value that contracts speak of.
pub struct Identity {
    pub id: ObjectId,
    /// The committee: each controller with its weight.
    pub controllers: Seq<Controller>,
    /// The votes a proposal needs before it is carried out.
    pub threshold: u64,
    /// The packed document, unless the identity has none at present.
    pub document: Option<Seq<u8>>,
    /// Whether the identity has been deleted.
    pub deleted: bool,
}

impl Identity {
    /// The controllers are distinct, and their weights add up to a `u64`.
    pub open spec fn well_formed(self) -> bool {
        &&& distinct_members(self.controllers)
        &&& total_weight(self.controllers) <= u64::MAX
    }

    /// Whether the token entitles its holder to act on this identity: it was
    /// issued for this identity, its controller sits on the committee, and the
    /// identity has not been deleted.
    pub open spec fn admits(self, token: ControllerToken) -> bool {
        &&& token.controller_of == self.id
        &&& !self.deleted
        &&& is_member(self.controllers, token.controller_id)
    }

    /// The votes that the committee, as it stands, gives to `voters`.
    pub open spec fn votes_of(self, voters: Seq<ObjectId>) -> nat {
        tally(voters, self.controllers)
    }

    /// The identity once `action` has been carried out on it.  Only the
    /// document and the deletion mark ever change.
    pub open spec fn after(self, action: Action) -> Identity {
        match action {
            Action::Update(bytes) => Identity { document: Some(bytes), ..self },
            Action::Deactivate => Identity { document: None, ..self },
            Action::Delete => Identity { document: None, deleted: true, ..self },
        }
    }
}

/// The local mirror of an identity that lives on the ledger.  It can be read
/// freely; it changes only when the effects of an executed transaction are
/// applied to it.
#[derive(Debug)]
pub struct OnChainIdentity {
    id: ObjectId,
    controllers: Vec<Controller>,
    threshold: u64,
    document: Option<Vec<u8>>,
    deleted: bool,
}

impl View for OnChainIdentity {
    type V = Identity;

    closed spec fn view(&self) -> Identity {
        Identity {
            id: self.id,
            controllers: self.controllers@,
            threshold: self.threshold,
            document: match self.document {
                Some(bytes) => Some(bytes@),
                None => None,
            },
            deleted: self.deleted,
        }
    }
}

impl OnChainIdentity {
    /// What holds of every mirror: the identity it shows is well formed.
    #[verifier::type_invariant]
    pub open spec fn well_formed(&self) -> bool {
        self@.well_formed()
    }

    /// Mirrors an identity as it was read from the ledger.  There is no such
    /// identity where two controllers share an identifier or where the weights
    /// of the committee add up to more than a `u64` holds.
    pub fn new(
        id: ObjectId,
        controllers: Vec<Controller>,
        threshold: u64,
        document: Option<Vec<u8>>,
        deleted: bool,
    ) -> (identity: Option<OnChainIdentity>)
        ensures
            identity is Some <==> distinct_members(controllers@) && total_weight(controllers@)
                <= u64::MAX,
            identity matches Some(i) ==> i@ == (Identity {
                id,
                controllers: controllers@,
                threshold,
                document: match document {
                    Some(bytes) => Some(bytes@),
                    None => None,
                },
                deleted,
            }),
    {
        if !members_distinct(&controllers) {
            return None;
        }
        if checked_total_weight(&controllers).is_none() {
            return None;
        }
        Some(OnChainIdentity { id, controllers, threshold, document, deleted })
    }

    /// The identity's own identifier.
    pub fn id(&self) -> (id: ObjectId)
        ensures
            id == self@.id,
    {
        self.id
    }

    /// The committee.
    pub fn controllers(&self) -> (controllers: &Vec<Controller>)
        ensures
            controllers@ == self@.controllers,
    {
        &self.controllers
    }

    /// The votes a proposal needs.
    pub fn threshold(&self) -> (threshold: u64)
        ensures
            threshold == self@.threshold,
    {
        self.threshold
    }

    /// The packed document, if the identity has one.
    pub fn did_document(&self) -> (document: Option<&Vec<u8>>)
        ensures
            document is Some <==> self@.document is Some,
            document matches Some(bytes) ==> self@.document == Some(bytes@),
    {
        match &self.document {
            Some(bytes) => Some(bytes),
            None => None,
        }
    }

    /// Whether the identity has been deleted.
    pub fn has_been_deleted(&self) -> (deleted: bool)
        ensures
            deleted == self@.deleted,
    {
        self.deleted
    }

    /// The voting power of a controller, if it sits on the committee.
    pub fn controller_voting_power(&self, controller: ObjectId) -> (power: Option<u64>)
        ensures
            power == voting_power(self@.controllers, controller),
    {
        proof {
            use_type_invariant(self);
        }
        lookup_voting_power(&self.controllers, &controller)
    }

    /// Whether the token entitles its holder to act on this identity.
    pub fn admits(&self, token: &ControllerToken) -> (admitted: bool)
        ensures
            admitted == self@.admits(*token),
    {
        token.controller_of.same(&self.id) && !self.deleted && self.controller_voting_power(
            token.controller_id,
        ).is_some()
    }

    /// The votes that the committee, as it stands, gives to distinct voters.
    pub(crate) fn votes_of(&self, voters: &Vec<ObjectId>) -> (votes: u64)
        requires
            voters@.no_duplicates(),
        ensures
            votes == self@.votes_of(voters@),
    {
        proof {
            use_type_invariant(self);
        }
        tally_votes(voters, &self.controllers)
    }

    /// Carries `action` out on the mirror.
    pub(crate) fn carry_out(&mut self, action: &UpdateDidDocument)
        ensures
            final(self)@ == old(self)@.after(action@),
    {
        proof {
            use_type_invariant(&*self);
        }
        match action {
            UpdateDidDocument::Update(document) => {
                let bytes = document.as_bytes().clone();
                assert(bytes@ =~= document@);
                self.document = Some(bytes);
            },
            UpdateDidDocument::Deactivate => {
                self.document = None;
            },
            UpdateDidDocument::Delete => {
                self.document = None;
                self.deleted = true;
            },
        }
    }
}

} // verus!
