//! The changes a committee can decide on.

use crate::error::GovernanceError;
use vstd::prelude::*;

verus! {

/// The packed bytes of an identity document.  They are never empty: an update
/// that carries no document cannot be written down.
#[derive(Debug)]
pub struct PackedDocument {
    bytes: Vec<u8>,
}

impl View for PackedDocument {
    type V = Seq<u8>;

    closed spec fn view(&self) -> Seq<u8> {
        self.bytes@
    }
}

impl PackedDocument {
    /// What holds of every packed document: it has at least one byte.
    #[verifier::type_invariant]
    pub open spec fn non_empty(&self) -> bool {
        self@.len() > 0
    }

    /// Accepts the packed bytes of a document, unless there are none.
    pub fn new(bytes: Vec<u8>) -> (r: Result<PackedDocument, GovernanceError>)
        ensures
            bytes@.len() > 0 ==> r is Ok && r->Ok_0@ == bytes@,
            bytes@.len() == 0 ==> r == Err::<PackedDocument, GovernanceError>(
                GovernanceError::MalformedAction,
            ),
    {
        if bytes.len() == 0 {
            Err(GovernanceError::MalformedAction)
        } else {
            Ok(PackedDocument { bytes })
        }
    }

    /// The packed bytes.
    pub fn as_bytes(&self) -> (bytes: &Vec<u8>)
        ensures
            bytes@ == self@,
            bytes@.len() > 0,
    {
        proof {
            use_type_invariant(self);
        }
        &self.bytes
    }

    /// A copy of the document.
    pub fn duplicate(&self) -> (copy: PackedDocument)
        ensures
            copy@ == self@,
    {
        proof {
            use_type_invariant(self);
        }
        let bytes = self.bytes.clone();
        assert(bytes@ =~= self.bytes@);
        PackedDocument { bytes }
    }

    /// Gives the bytes up.
    pub fn into_bytes(self) -> (bytes: Vec<u8>)
        ensures
            bytes@ == self@,
            bytes@.len() > 0,
    {
        proof {
            use_type_invariant(&self);
        }
        self.bytes
    }
}

/// A change to an identity, as the mathematical value that contracts speak of.
pub enum Action {
    /// Replace the document by these bytes.
    Update(Seq<u8>),
    /// Clear the document.
    Deactivate,
    /// Clear the document and mark the identity as deleted, for good.
    Delete,
}

impl Action {
    /// An update carries at least one byte.
    pub open spec fn well_formed(self) -> bool {
        self matches Action::Update(bytes) ==> bytes.len() > 0
    }

    /// The bytes that an update carries; none for the other two.
    pub open spec fn document(self) -> Option<Seq<u8>> {
        match self {
            Action::Update(bytes) => Some(bytes),
            Action::Deactivate => None,
            Action::Delete => None,
        }
    }
}

/// Which of the three changes an action is.
#[derive(Clone, Copy, Debug, PartialEq, Eq, Structural)]
pub enum ActionKind {
    Update,
    Deactivate,
    Delete,
}

/// A change that a committee can decide on.  The three kinds are told apart by
/// their variant, never by what bytes they carry.
#[derive(Debug)]
pub enum UpdateDidDocument {
    /// Replace the identity's document.
    Update(PackedDocument),
    /// Clear the identity's document.
    Deactivate,
    /// Delete the identity.
    Delete,
}

impl View for UpdateDidDocument {
    type V = Action;

    open spec fn view(&self) -> Action {
        match self {
            UpdateDidDocument::Update(document) => Action::Update(document@),
            UpdateDidDocument::Deactivate => Action::Deactivate,
            UpdateDidDocument::Delete => Action::Delete,
        }
    }
}

impl UpdateDidDocument {
    /// The update to the document with the given packed bytes.  Fails with
    /// [`GovernanceError::MalformedAction`] exactly when there are no bytes.
    pub fn new(document: Vec<u8>) -> (r: Result<UpdateDidDocument, GovernanceError>)
        ensures
            document@.len() > 0 ==> r is Ok && r->Ok_0@ == Action::Update(document@),
            document@.len() == 0 ==> r == Err::<UpdateDidDocument, GovernanceError>(
                GovernanceError::MalformedAction,
            ),
    {
        match PackedDocument::new(document) {
            Ok(packed) => Ok(UpdateDidDocument::Update(packed)),
            Err(e) => Err(e),
        }
    }

    /// The deactivation.
    pub fn deactivate() -> (action: UpdateDidDocument)
        ensures
            action@ == Action::Deactivate,
    {
        UpdateDidDocument::Deactivate
    }

    /// The deletion.
    pub fn delete() -> (action: UpdateDidDocument)
        ensures
            action@ == Action::Delete,
    {
        UpdateDidDocument::Delete
    }

    /// Which of the three changes this is.
    pub fn kind(&self) -> (kind: ActionKind)
        ensures
            kind == kind_of(self@),
    {
        match self {
            UpdateDidDocument::Update(_) => ActionKind::Update,
            UpdateDidDocument::Deactivate => ActionKind::Deactivate,
            UpdateDidDocument::Delete => ActionKind::Delete,
        }
    }

    /// Does nothing when run.  To the verifier it shows that the action is
    /// well formed, as every action that exists as a value is.
    pub fn note_well_formed(&self)
        ensures
            self@.well_formed(),
    {
        match self {
            UpdateDidDocument::Update(document) => {
                proof {
                    use_type_invariant(document);
                }
            },
            UpdateDidDocument::Deactivate => {},
            UpdateDidDocument::Delete => {},
        }
    }

    /// The bytes of the new document, where the action is an update.
    pub fn did_document_bytes(&self) -> (bytes: Option<&Vec<u8>>)
        ensures
            bytes is Some <==> self@ is Update,
            bytes matches Some(b) ==> self@ == Action::Update(b@) && b@.len() > 0,
    {
        match self {
            UpdateDidDocument::Update(document) => Some(document.as_bytes()),
            UpdateDidDocument::Deactivate => None,
            UpdateDidDocument::Delete => None,
        }
    }

    /// A copy of the action.
    pub fn duplicate(&self) -> (copy: UpdateDidDocument)
        ensures
            copy@ == self@,
    {
        match self {
            UpdateDidDocument::Update(document) => UpdateDidDocument::Update(document.duplicate()),
            UpdateDidDocument::Deactivate => UpdateDidDocument::Deactivate,
            UpdateDidDocument::Delete => UpdateDidDocument::Delete,
        }
    }
}

/// The kind of an action.
pub open spec fn kind_of(action: Action) -> ActionKind {
    match action {
        Action::Update(_) => ActionKind::Update,
        Action::Deactivate => ActionKind::Deactivate,
        Action::Delete => ActionKind::Delete,
    }
}

} // verus!
