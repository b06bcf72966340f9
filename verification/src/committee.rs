//! Weighted committees and the tallying of votes.
//!
//! A committee is a list of controllers, each with a weight.  The votes of a
//! set of voters are the sum of the weights that the committee gives them.

use crate::object_id::ObjectId;
use vstd::prelude::*;

verus! {

/// One member of a committee.
#[derive(Clone, Copy, Debug, PartialEq, Eq, Structural)]
pub struct Controller {
    pub id: ObjectId,
    pub weight: u64,
}

/// Whether `id` is a member of the committee.
pub open spec fn is_member(committee: Seq<Controller>, id: ObjectId) -> bool {
    exists|i: int| 0 <= i < committee.len() && (#[trigger] committee[i]).id == id
}

/// No two members of the committee have the same identifier.
pub open spec fn distinct_members(committee: Seq<Controller>) -> bool {
    forall|i: int, j: int|
        0 <= i < j < committee.len() ==> (#[trigger] committee[i]).id != (
        #[trigger] committee[j]).id
}

/// The weight that the committee gives to `id`: the sum of the weights of
/// the entries that carry this identifier.  Among distinct members this is the
/// member's weight, and zero for anyone else.
pub open spec fn weight_of(committee: Seq<Controller>, id: ObjectId) -> nat
    decreases committee.len(),
{
    if committee.len() == 0 {
        0
    } else {
        weight_of(committee.drop_last(), id) + if committee.last().id == id {
            committee.last().weight as nat
        } else {
            0
        }
    }
}

/// The weight of the whole committee.
pub open spec fn total_weight(committee: Seq<Controller>) -> nat
    decreases committee.len(),
{
    if committee.len() == 0 {
        0
    } else {
        total_weight(committee.drop_last()) + committee.last().weight as nat
    }
}

/// The votes of `voters`: the sum, over the voters, of the weight that the
/// committee gives each of them.
pub open spec fn tally(voters: Seq<ObjectId>, committee: Seq<Controller>) -> nat
    decreases voters.len(),
{
    if voters.len() == 0 {
        0
    } else {
        tally(voters.drop_last(), committee) + weight_of(committee, voters.last())
    }
}

/// The weight of those members of the committee that are among `voters`.
pub open spec fn weight_among(committee: Seq<Controller>, voters: Set<ObjectId>) -> nat
    decreases committee.len(),
{
    if committee.len() == 0 {
        0
    } else {
        weight_among(committee.drop_last(), voters) + if voters.contains(committee.last().id) {
            committee.last().weight as nat
        } else {
            0
        }
    }
}

/// The voting power of `id`: its weight where it is a member, nothing otherwise.
pub open spec fn voting_power(committee: Seq<Controller>, id: ObjectId) -> Option<u64> {
    if is_member(committee, id) {
        Some(weight_of(committee, id) as u64)
    } else {
        None
    }
}

/// What `weight` contributes to a tally for every occurrence of `id` among the voters.
spec fn share(voters: Seq<ObjectId>, id: ObjectId, weight: nat) -> nat
    decreases voters.len(),
{
    if voters.len() == 0 {
        0
    } else {
        share(voters.drop_last(), id, weight) + if voters.last() == id {
            weight
        } else {
            0
        }
    }
}

proof fn lemma_share_of_absent(voters: Seq<ObjectId>, id: ObjectId, weight: nat)
    requires
        !voters.contains(id),
    ensures
        share(voters, id, weight) == 0,
    decreases voters.len(),
{
    if voters.len() > 0 {
        let rest = voters.drop_last();
        assert(voters[voters.len() - 1] == voters.last());
        assert forall|x: ObjectId| rest.contains(x) implies voters.contains(x) by {
            let i = choose|i: int| 0 <= i < rest.len() && rest[i] == x;
            assert(voters[i] == x);
        }
        lemma_share_of_absent(rest, id, weight);
    }
}

proof fn lemma_share_of_voter(voters: Seq<ObjectId>, id: ObjectId, weight: nat)
    requires
        voters.no_duplicates(),
    ensures
        share(voters, id, weight) == if voters.contains(id) {
            weight
        } else {
            0
        },
    decreases voters.len(),
{
    if !voters.contains(id) {
        lemma_share_of_absent(voters, id, weight);
    } else {
        let rest = voters.drop_last();
        if voters.last() == id {
            assert(!rest.contains(id)) by {
                if rest.contains(id) {
                    let i = choose|i: int| 0 <= i < rest.len() && rest[i] == id;
                    assert(voters[i] == voters[voters.len() - 1]);
                }
            }
            lemma_share_of_absent(rest, id, weight);
        } else {
            let i = choose|i: int| 0 <= i < voters.len() && voters[i] == id;
            assert(rest[i] == id);
            lemma_share_of_voter(rest, id, weight);
        }
    }
}

proof fn lemma_tally_of_extended_committee(
    voters: Seq<ObjectId>,
    committee: Seq<Controller>,
    member: Controller,
)
    ensures
        tally(voters, committee.push(member)) == tally(voters, committee) + share(
            voters,
            member.id,
            member.weight as nat,
        ),
    decreases voters.len(),
{
    if voters.len() > 0 {
        lemma_tally_of_extended_committee(voters.drop_last(), committee, member);
        assert(committee.push(member).drop_last() == committee);
    }
}

/// The votes of distinct voters never exceed the weight of the committee.
pub proof fn lemma_tally_within_total(voters: Seq<ObjectId>, committee: Seq<Controller>)
    requires
        voters.no_duplicates(),
    ensures
        tally(voters, committee) <= total_weight(committee),
    decreases committee.len(),
{
    if committee.len() == 0 {
        assert(committee =~= Seq::<Controller>::empty());
        lemma_tally_of_empty_committee(voters);
    } else {
        let rest = committee.drop_last();
        let member = committee.last();
        assert(rest.push(member) == committee);
        lemma_tally_within_total(voters, rest);
        lemma_tally_of_extended_committee(voters, rest, member);
        lemma_share_of_voter(voters, member.id, member.weight as nat);
    }
}

/// The votes of distinct voters depend on who has voted, not on the order of
/// the votes: they are the weight of those members that are among the voters.
pub proof fn lemma_tally_is_weight_among_voters(voters: Seq<ObjectId>, committee: Seq<Controller>)
    requires
        voters.no_duplicates(),
    ensures
        tally(voters, committee) == weight_among(committee, voters.to_set()),
    decreases committee.len(),
{
    if committee.len() == 0 {
        assert(committee =~= Seq::<Controller>::empty());
        lemma_tally_of_empty_committee(voters);
    } else {
        let rest = committee.drop_last();
        let member = committee.last();
        assert(rest.push(member) == committee);
        lemma_tally_is_weight_among_voters(voters, rest);
        lemma_tally_of_extended_committee(voters, rest, member);
        lemma_share_of_voter(voters, member.id, member.weight as nat);
        assert(voters.to_set().contains(member.id) <==> voters.contains(member.id));
    }
}

proof fn lemma_tally_of_empty_committee(voters: Seq<ObjectId>)
    ensures
        tally(voters, Seq::<Controller>::empty()) == 0,
    decreases voters.len(),
{
    if voters.len() > 0 {
        lemma_tally_of_empty_committee(voters.drop_last());
    }
}

/// The votes of a single voter are its weight.
pub proof fn lemma_tally_of_one(voter: ObjectId, committee: Seq<Controller>)
    ensures
        tally(seq![voter], committee) == weight_of(committee, voter),
{
    let voters = seq![voter];
    assert(voters.drop_last() =~= Seq::<ObjectId>::empty());
    assert(tally(voters.drop_last(), committee) == 0);
}

/// A vote by one more controller adds that controller's weight.
pub proof fn lemma_tally_push(voters: Seq<ObjectId>, voter: ObjectId, committee: Seq<Controller>)
    ensures
        tally(voters.push(voter), committee) == tally(voters, committee) + weight_of(
            committee,
            voter,
        ),
{
    assert(voters.push(voter).drop_last() == voters);
}

/// Someone who is no member has no weight.
pub proof fn lemma_weight_of_stranger(committee: Seq<Controller>, id: ObjectId)
    requires
        !is_member(committee, id),
    ensures
        weight_of(committee, id) == 0,
    decreases committee.len(),
{
    if committee.len() > 0 {
        let rest = committee.drop_last();
        assert(committee[committee.len() - 1].id != id);
        assert forall|i: int| 0 <= i < rest.len() implies (#[trigger] rest[i]).id != id by {
            assert(committee[i].id != id);
        }
        lemma_weight_of_stranger(rest, id);
    }
}

/// Among distinct members, a member's weight is the weight of its entry.
pub proof fn lemma_weight_of_member(committee: Seq<Controller>, i: int)
    requires
        distinct_members(committee),
        0 <= i < committee.len(),
    ensures
        weight_of(committee, committee[i].id) == committee[i].weight,
    decreases committee.len(),
{
    let rest = committee.drop_last();
    let id = committee[i].id;
    assert forall|a: int, b: int| 0 <= a < b < rest.len() implies (#[trigger] rest[a]).id != (
    #[trigger] rest[b]).id by {
        assert(committee[a].id != committee[b].id);
    }
    if i == committee.len() - 1 {
        assert(!is_member(rest, id)) by {
            if is_member(rest, id) {
                let k = choose|k: int| 0 <= k < rest.len() && (#[trigger] rest[k]).id == id;
                assert(committee[k].id != committee[i].id);
            }
        }
        lemma_weight_of_stranger(rest, id);
    } else {
        assert(rest[i] == committee[i]);
        assert(committee[i].id != committee[committee.len() - 1].id);
        lemma_weight_of_member(rest, i);
    }
}

/// No single weight exceeds the weight of the committee.
pub proof fn lemma_weight_within_total(committee: Seq<Controller>, id: ObjectId)
    ensures
        weight_of(committee, id) <= total_weight(committee),
    decreases committee.len(),
{
    if committee.len() > 0 {
        lemma_weight_within_total(committee.drop_last(), id);
    }
}

/// The weight of a part of the committee, taken from its front, is within the
/// weight of the whole.
proof fn lemma_total_weight_of_prefix(committee: Seq<Controller>, n: int)
    requires
        0 <= n <= committee.len(),
    ensures
        total_weight(committee.take(n)) <= total_weight(committee),
    decreases committee.len() - n,
{
    if n < committee.len() {
        lemma_total_weight_of_prefix(committee, n + 1);
        assert(committee.take(n + 1).drop_last() == committee.take(n));
    } else {
        assert(committee.take(n) == committee);
    }
}

/// Whether `id` is among `ids`.
pub fn contains_id(ids: &Vec<ObjectId>, id: &ObjectId) -> (found: bool)
    ensures
        found == ids@.contains(*id),
{
    let mut i: usize = 0;
    while i < ids.len()
        invariant
            i <= ids.len(),
            forall|k: int| 0 <= k < i ==> ids@[k] != *id,
        decreases ids.len() - i,
    {
        if ids[i].same(id) {
            return true;
        }
        i += 1;
    }
    false
}

/// Whether no identifier occurs twice in `ids`.
pub fn all_distinct(ids: &Vec<ObjectId>) -> (distinct: bool)
    ensures
        distinct == ids@.no_duplicates(),
{
    let mut i: usize = 0;
    while i < ids.len()
        invariant
            i <= ids.len(),
            forall|a: int, b: int| 0 <= a < b < i ==> ids@[a] != ids@[b],
        decreases ids.len() - i,
    {
        let mut j: usize = 0;
        while j < i
            invariant
                j <= i < ids.len(),
                forall|a: int| 0 <= a < j ==> ids@[a] != ids@[i as int],
            decreases i - j,
        {
            if ids[j].same(&ids[i]) {
                return false;
            }
            j += 1;
        }
        i += 1;
    }
    true
}

/// Whether no two entries of `committee` carry the same identifier.
pub fn members_distinct(committee: &Vec<Controller>) -> (distinct: bool)
    ensures
        distinct == distinct_members(committee@),
{
    let mut i: usize = 0;
    while i < committee.len()
        invariant
            i <= committee.len(),
            forall|a: int, b: int| 0 <= a < b < i ==> committee@[a].id != committee@[b].id,
        decreases committee.len() - i,
    {
        let mut j: usize = 0;
        while j < i
            invariant
                j <= i < committee.len(),
                forall|a: int| 0 <= a < j ==> committee@[a].id != committee@[i as int].id,
            decreases i - j,
        {
            if committee[j].id.same(&committee[i].id) {
                return false;
            }
            j += 1;
        }
        i += 1;
    }
    true
}

/// The weight of the whole committee, unless it is more than a `u64` holds.
pub fn checked_total_weight(committee: &Vec<Controller>) -> (total: Option<u64>)
    ensures
        total matches Some(t) ==> t == total_weight(committee@),
        total is None <==> total_weight(committee@) > u64::MAX,
{
    let mut sum: u64 = 0;
    let mut i: usize = 0;
    while i < committee.len()
        invariant
            i <= committee.len(),
            sum == total_weight(committee@.take(i as int)),
        decreases committee.len() - i,
    {
        proof {
            assert(committee@.take(i + 1).drop_last() == committee@.take(i as int));
            lemma_total_weight_of_prefix(committee@, i + 1);
        }
        match sum.checked_add(committee[i].weight) {
            Some(next) => {
                sum = next;
            },
            None => {
                return None;
            },
        }
        i += 1;
    }
    proof {
        assert(committee@.take(i as int) == committee@);
    }
    Some(sum)
}

/// Looks up the voting power of `id` in a committee of distinct members.
pub(crate) fn lookup_voting_power(committee: &Vec<Controller>, id: &ObjectId) -> (power: Option<
    u64,
>)
    requires
        distinct_members(committee@),
    ensures
        power == voting_power(committee@, *id),
{
    let mut i: usize = 0;
    while i < committee.len()
        invariant
            i <= committee.len(),
            distinct_members(committee@),
            forall|k: int| 0 <= k < i ==> committee@[k].id != *id,
        decreases committee.len() - i,
    {
        if committee[i].id.same(id) {
            proof {
                lemma_weight_of_member(committee@, i as int);
            }
            return Some(committee[i].weight);
        }
        i += 1;
    }
    None
}

/// Tallies the votes of distinct voters in a committee of distinct members
/// whose whole weight fits a `u64`.
pub(crate) fn tally_votes(voters: &Vec<ObjectId>, committee: &Vec<Controller>) -> (votes: u64)
    requires
        voters@.no_duplicates(),
        distinct_members(committee@),
        total_weight(committee@) <= u64::MAX,
    ensures
        votes == tally(voters@, committee@),
{
    let mut votes: u64 = 0;
    let mut i: usize = 0;
    while i < voters.len()
        invariant
            i <= voters.len(),
            voters@.no_duplicates(),
            distinct_members(committee@),
            total_weight(committee@) <= u64::MAX,
            votes == tally(voters@.take(i as int), committee@),
        decreases voters.len() - i,
    {
        let weight: u64 = match lookup_voting_power(committee, &voters[i]) {
            Some(w) => w,
            None => 0,
        };
        proof {
            let next = voters@.take(i + 1);
            assert(next.drop_last() == voters@.take(i as int));
            assert(next.last() == voters@[i as int]);
            if !is_member(committee@, voters@[i as int]) {
                lemma_weight_of_stranger(committee@, voters@[i as int]);
            }
            lemma_weight_within_total(committee@, voters@[i as int]);
            assert(next.no_duplicates());
            lemma_tally_within_total(next, committee@);
        }
        votes = votes + weight;
        i += 1;
    }
    proof {
        assert(voters@.take(i as int) == voters@);
    }
    votes
}

} // verus!
