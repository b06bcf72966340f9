//! Identifiers of ledger objects.

use vstd::prelude::*;

verus! {

/// The 256-bit identifier the ledger gives to an object: an identity, a
/// controller, or a proposal.  Two identifiers name the same object exactly
/// when both halves agree.
#[derive(Clone, Copy, Debug, PartialEq, Eq, Structural, Hash)]
pub struct ObjectId {
    pub hi: u128,
    pub lo: u128,
}

impl ObjectId {
    /// The identifier with the given upper and lower half.
    pub fn new(hi: u128, lo: u128) -> (id: ObjectId)
        ensures
            id == (ObjectId { hi, lo }),
    {
        ObjectId { hi, lo }
    }

    /// Whether `self` and `other` name the same object.
    pub fn same(&self, other: &ObjectId) -> (b: bool)
        ensures
            b == (*self == *other),
    {
        self.hi == other.hi && self.lo == other.lo
    }
}

/// A copy of a list of identifiers.
pub fn copy_ids(ids: &Vec<ObjectId>) -> (copy: Vec<ObjectId>)
    ensures
        copy@ == ids@,
{
    let mut copy: Vec<ObjectId> = Vec::new();
    let mut i: usize = 0;
    while i < ids.len()
        invariant
            i <= ids.len(),
            copy@ == ids@.take(i as int),
        decreases ids.len() - i,
    {
        copy.push(ids[i]);
        proof {
            assert(ids@.take(i + 1) =~= ids@.take(i as int).push(ids@[i as int]));
        }
        i += 1;
    }
    proof {
        assert(ids@.take(i as int) == ids@);
    }
    copy
}

} // verus!
