//! Laws of the registry, stated over its view: the set of handle texts that
//! currently address a connection.

use vstd::prelude::*;

verus! {

/// Handles returned by a run of inserts are pairwise distinct: each insert
/// returns a handle absent from the registry it joins, and the registry only
/// grows along the run.
pub proof fn lemma_inserted_handles_distinct(states: Seq<Set<Seq<char>>>, handles: Seq<Seq<char>>)
    requires
        states.len() == handles.len() + 1,
        forall|i: int|
            0 <= i < handles.len() ==> !states[i].contains(#[trigger] handles[i]) && states[i + 1]
                == states[i].insert(handles[i]),
    ensures
        forall|i: int, j: int| 0 <= i < j < handles.len() ==> handles[i] != handles[j],
{
    assert forall|i: int, j: int| 0 <= i < j < handles.len() implies handles[i] != handles[j] by {
        lemma_insert_kept(states, handles, i, j);
    }
}

proof fn lemma_insert_kept(states: Seq<Set<Seq<char>>>, handles: Seq<Seq<char>>, i: int, k: int)
    requires
        states.len() == handles.len() + 1,
        forall|i: int|
            0 <= i < handles.len() ==> !states[i].contains(#[trigger] handles[i]) && states[i + 1]
                == states[i].insert(handles[i]),
        0 <= i < k < states.len(),
    ensures
        states[k].contains(handles[i]),
    decreases k - i,
{
    if k > i + 1 {
        lemma_insert_kept(states, handles, i, k - 1);
        assert(states[k] == states[k - 1].insert(handles[k - 1]));
    } else {
        assert(states[i + 1] == states[i].insert(handles[i]));
    }
}

/// Removing a handle that is absent leaves the registry as it was.
pub proof fn lemma_delete_absent(before: Set<Seq<char>>, h: Seq<char>)
    requires
        !before.contains(h),
    ensures
        before.remove(h) == before,
{
    assert(before.remove(h) =~= before);
}

/// Right after an insert returns `h`, `h` addresses a connection, so a
/// unicast send to it finds its target.
pub proof fn lemma_lookup_after_insert(before: Set<Seq<char>>, h: Seq<char>)
    ensures
        before.insert(h).contains(h),
{
}

/// Right after `h` is removed, it addresses nothing, so a unicast send to it
/// fails with `NoSuchWebSocketClient`.
pub proof fn lemma_lookup_after_delete(before: Set<Seq<char>>, h: Seq<char>)
    ensures
        !before.remove(h).contains(h),
{
}

/// A registry with no members has no recipients for a broadcast.
pub proof fn lemma_empty_broadcast(members: Set<Seq<char>>, recipients: Seq<Seq<char>>)
    requires
        members == Set::<Seq<char>>::empty(),
        forall|k: Seq<char>|
            members.contains(k) <==> exists|i: int| 0 <= i < recipients.len() && recipients[i] == k,
    ensures
        recipients.len() == 0,
{
    if recipients.len() > 0 {
        assert(members.contains(recipients[0]));
    }
}

/// One change of membership.
pub enum Change {
    Insert(Seq<char>),
    Remove(Seq<char>),
}

/// The membership after `c`, as insert and delete state it.
pub open spec fn apply(s: Set<Seq<char>>, c: Change) -> Set<Seq<char>> {
    match c {
        Change::Insert(h) => s.insert(h),
        Change::Remove(h) => s.remove(h),
    }
}

/// The membership after the changes `cs`, in order, starting from `s`.
pub open spec fn replay(s: Set<Seq<char>>, cs: Seq<Change>) -> Set<Seq<char>>
    decreases cs.len(),
{
    if cs.len() == 0 {
        s
    } else {
        apply(replay(s, cs.drop_last()), cs.last())
    }
}

/// The handles that `cs` inserts.
pub open spec fn inserted(cs: Seq<Change>) -> Set<Seq<char>>
    decreases cs.len(),
{
    if cs.len() == 0 {
        Set::empty()
    } else {
        match cs.last() {
            Change::Insert(h) => inserted(cs.drop_last()).insert(h),
            Change::Remove(_) => inserted(cs.drop_last()),
        }
    }
}

/// The handles that `cs` removes.
pub open spec fn removed(cs: Seq<Change>) -> Set<Seq<char>>
    decreases cs.len(),
{
    if cs.len() == 0 {
        Set::empty()
    } else {
        match cs.last() {
            Change::Insert(_) => removed(cs.drop_last()),
            Change::Remove(h) => removed(cs.drop_last()).insert(h),
        }
    }
}

proof fn lemma_removed_named(cs: Seq<Change>, h: Seq<char>)
    requires
        removed(cs).contains(h),
    ensures
        exists|i: int| 0 <= i < cs.len() && cs[i] == Change::Remove(h),
    decreases cs.len(),
{
    let p = cs.drop_last();
    if cs.last() == Change::Remove(h) {
        assert(cs[cs.len() - 1] == Change::Remove(h));
    } else {
        lemma_removed_named(p, h);
        let i = choose|i: int| 0 <= i < p.len() && p[i] == Change::Remove(h);
        assert(cs[i] == Change::Remove(h));
    }
}

/// Whatever order a run of inserts and removes takes, the final membership
/// is the starting one plus the handles inserted, minus those removed,
/// provided no handle is inserted after a remove that names it (handles are
/// fresh at each insert).
pub proof fn lemma_membership_after_changes(s: Set<Seq<char>>, cs: Seq<Change>)
    requires
        forall|i: int, j: int, h: Seq<char>|
            0 <= i < j < cs.len() && cs[j] == Change::Insert(h) ==> cs[i] != Change::Remove(h),
    ensures
        replay(s, cs) == s.union(inserted(cs)).difference(removed(cs)),
    decreases cs.len(),
{
    if cs.len() > 0 {
        let p = cs.drop_last();
        assert forall|i: int, j: int, h: Seq<char>|
            0 <= i < j < p.len() && p[j] == Change::Insert(h) implies p[i] != Change::Remove(h) by {
            assert(cs[j] == p[j] && cs[i] == p[i]);
        }
        lemma_membership_after_changes(s, p);
        match cs.last() {
            Change::Insert(h) => {
                if removed(p).contains(h) {
                    lemma_removed_named(p, h);
                    let i = choose|i: int| 0 <= i < p.len() && p[i] == Change::Remove(h);
                    assert(cs[i] == p[i]);
                    assert(cs[cs.len() - 1] == Change::Insert(h));
                }
                assert(replay(s, cs) =~= s.union(inserted(cs)).difference(removed(cs)));
            },
            Change::Remove(h) => {
                assert(replay(s, cs) =~= s.union(inserted(cs)).difference(removed(cs)));
            },
        }
    }
}

} // verus!
