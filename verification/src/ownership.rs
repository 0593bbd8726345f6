//! Who simulates what. Every entity of a shared level is owned by one client
//! (named by its id); each client ticks only the entities it owns, despawns
//! its own players when it leaves, and takes over the whole level when it
//! resets it.
use vstd::prelude::*;

verus! {

/// The positions in `owners` that hold `me`, in increasing order.
pub open spec fn owned_positions(owners: Seq<String>, me: Seq<char>) -> Seq<usize>
    decreases owners.len(),
{
    if owners.len() == 0 {
        Seq::empty()
    } else {
        let prev = owned_positions(owners.drop_last(), me);
        if owners.last()@ == me { prev.push((owners.len() - 1) as usize) } else { prev }
    }
}

proof fn lemma_owned_positions(owners: Seq<String>, me: Seq<char>)
    requires
        owners.len() <= usize::MAX,
    ensures
        forall|k: int| 0 <= k < owned_positions(owners, me).len()
            ==> (#[trigger] owned_positions(owners, me)[k]) < owners.len()
                && owners[owned_positions(owners, me)[k] as int]@ == me,
        forall|k: int, l: int| 0 <= k < l < owned_positions(owners, me).len()
            ==> owned_positions(owners, me)[k] < owned_positions(owners, me)[l],
        forall|i: int| 0 <= i < owners.len() && (#[trigger] owners[i])@ == me
            ==> owned_positions(owners, me).contains(i as usize),
    decreases owners.len(),
{
    if owners.len() > 0 {
        let init = owners.drop_last();
        lemma_owned_positions(init, me);
        let prev = owned_positions(init, me);
        let cur = owned_positions(owners, me);
        assert forall|k: int| 0 <= k < init.len() implies #[trigger] init[k] == owners[k] by {}
        if owners.last()@ == me {
            assert(cur == prev.push((owners.len() - 1) as usize));
            assert(cur[prev.len() as int] == owners.len() - 1);
            assert(owners[owners.len() - 1] == owners.last());
        } else {
            assert(cur == prev);
        }
        assert forall|i: int| 0 <= i < owners.len() && (#[trigger] owners[i])@ == me
            implies owned_positions(owners, me).contains(i as usize) by {
            if i < owners.len() - 1 {
                assert(init[i] == owners[i]);
                let k = choose|k: int| 0 <= k < prev.len() && prev[k] == i as usize;
                assert(owned_positions(owners, me)[k] == i as usize);
            } else {
                let cur = owned_positions(owners, me);
                assert(cur[cur.len() - 1] == i as usize);
            }
        }
    }
}

/// Whether the client `me` owns what `owner` names.
pub fn is_owner(owner: &String, me: &String) -> (mine: bool)
    ensures
        mine == (owner@ == me@),
{
    *owner == *me
}

/// The positions of the entities that `me` owns, given the owner of each
/// entity in order: increasing, and holding exactly the positions whose
/// owner is `me`.
pub fn owned_by(owners: &Vec<String>, me: &String) -> (mine: Vec<usize>)
    ensures
        mine@ == owned_positions(owners@, me@),
        forall|k: int| 0 <= k < mine@.len() ==> (#[trigger] mine@[k]) < owners@.len() && owners@[mine@[k] as int]@ == me@,
        forall|k: int, l: int| 0 <= k < l < mine@.len() ==> mine@[k] < mine@[l],
        forall|i: int| 0 <= i < owners@.len() && (#[trigger] owners@[i])@ == me@ ==> mine@.contains(i as usize),
{
    let mut mine: Vec<usize> = Vec::new();
    let mut i: usize = 0;
    while i < owners.len()
        invariant
            i <= owners@.len(),
            mine@ == owned_positions(owners@.subrange(0, i as int), me@),
        decreases owners@.len() - i,
    {
        proof {
            let s = owners@.subrange(0, i + 1);
            assert(s.drop_last() =~= owners@.subrange(0, i as int));
            assert(s.last() == owners@[i as int]);
        }
        if is_owner(&owners[i], me) {
            mine.push(i);
        }
        i = i + 1;
    }
    proof {
        assert(owners@.subrange(0, i as int) =~= owners@);
        lemma_owned_positions(owners@, me@);
    }
    mine
}

/// Makes `me` the owner of every entity (a client that resets the level
/// takes all of it over).
pub fn claim_all(owners: &mut Vec<Option<String>>, me: &String)
    ensures
        final(owners)@.len() == old(owners)@.len(),
        forall|i: int| 0 <= i < final(owners)@.len() ==> #[trigger] final(owners)@[i] == Some(*me),
{
    let mut i: usize = 0;
    while i < owners.len()
        invariant
            i <= owners@.len(),
            owners@.len() == old(owners)@.len(),
            forall|k: int| 0 <= k < i ==> #[trigger] owners@[k] == Some(*me),
        decreases owners@.len() - i,
    {
        owners.set(i, Some(me.clone()));
        i = i + 1;
    }
}

} // verus!
