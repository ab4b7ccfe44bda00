use vstd::prelude::*;

use std::collections::HashMap;

verus! {

broadcast use vstd::std_specs::hash::group_hash_axioms;

/// The table after the despawn requests `despawns`, taken in order: a
/// request with an id drops that entry, one without an id drops them all.
pub open spec fn after_despawns<E>(table: Map<u64, E>, despawns: Seq<Option<u64>>) -> Map<u64, E>
    decreases despawns.len(),
{
    if despawns.len() == 0 {
        table
    } else {
        let before = after_despawns(table, despawns.drop_last());
        match despawns.last() {
            Some(id) => before.remove(id),
            None => Map::empty(),
        }
    }
}

/// The table after inserting `created`, in order; a later entry for an id
/// replaces an earlier one.
pub open spec fn after_inserts<E>(table: Map<u64, E>, created: Seq<(u64, E)>) -> Map<u64, E>
    decreases created.len(),
{
    if created.len() == 0 {
        table
    } else {
        after_inserts(table, created.drop_last()).insert(created.last().0, created.last().1)
    }
}

/// The entries that the `i`th despawn request of `despawns` removes.
pub open spec fn despawned_at<E>(table: Map<u64, E>, despawns: Seq<Option<u64>>, i: int) -> Map<u64, E> {
    after_despawns(table, despawns.take(i)).remove_keys(after_despawns(table, despawns.take(i + 1)).dom())
}

/// A despawn request splits the table in two: the entries it removes and
/// the entries that stay, with no id in both; together they are the table
/// as it was.
pub proof fn lemma_despawn_partitions<E>(table: Map<u64, E>, beet_id: Option<u64>)
    ensures
        ({
            let stays = after_despawns(table, seq![beet_id]);
            let removed = table.remove_keys(stays.dom());
            &&& stays.dom().disjoint(removed.dom())
            &&& stays.union_prefer_right(removed) == table
            &&& beet_id is None ==> removed == table
            &&& beet_id matches Some(id) ==> !stays.dom().contains(id)
        }),
{
    let ds = seq![beet_id];
    assert(ds.drop_last() =~= Seq::<Option<u64>>::empty());
    assert(after_despawns(table, ds.drop_last()) == table);
    let stays = after_despawns(table, ds);
    let removed = table.remove_keys(stays.dom());
    match beet_id {
        Some(id) => assert(stays == table.remove(id)),
        None => assert(stays == Map::<u64, E>::empty()),
    }
    assert forall|k: u64| stays.dom().contains(k) implies table.dom().contains(k) && stays[k] == table[k] by {}
    assert(stays.union_prefer_right(removed) =~= table);
    assert(beet_id is None ==> removed =~= table);
}

/// A despawn request that carries an id takes at most that id's entry off
/// the table, whether or not the id has one: every other entry stays as it
/// was, and the request removes just the entry for the id, if there was one.
pub proof fn lemma_despawn_request_with_id_removes_only_it<E>(
    table: Map<u64, E>,
    despawns: Seq<Option<u64>>,
    i: int,
    id: u64,
)
    requires
        0 <= i < despawns.len(),
        despawns[i] == Some(id),
    ensures
        ({
            let before = after_despawns(table, despawns.take(i));
            let after = after_despawns(table, despawns.take(i + 1));
            let removed = despawned_at(table, despawns, i);
            &&& !after.dom().contains(id)
            &&& forall|k: u64|
                k != id ==> (#[trigger] after.dom().contains(k) <==> before.dom().contains(k))
            &&& forall|k: u64| k != id && before.dom().contains(k) ==> #[trigger] after[k] == before[k]
            &&& forall|k: u64| #[trigger] removed.dom().contains(k) ==> k == id
            &&& removed.dom().contains(id) <==> before.dom().contains(id)
            &&& before.dom().contains(id) ==> removed[id] == before[id]
        }),
{
    assert(despawns.take(i + 1).drop_last() == despawns.take(i));
    assert(despawns.take(i + 1).last() == despawns[i]);
}

/// The elements shown for the entities of the bee game, by entity id.
pub struct BeeGame<E> {
    pub elements: HashMap<u64, E>,
}

impl<E> BeeGame<E> {
    /// A game that shows no entity yet.
    pub fn new() -> (g: Self)
        ensures
            g.elements@ == Map::<u64, E>::empty(),
    {
        BeeGame { elements: HashMap::new() }
    }

    /// Handles a despawn request: with an id, that entity's element leaves
    /// the table; without one, every element does. Returns the entries that
    /// left, whose elements are to be taken off the page.
    pub fn despawn(&mut self, beet_id: Option<u64>) -> (removed: HashMap<u64, E>)
        ensures
            beet_id matches Some(id) ==> final(self).elements@ == old(self).elements@.remove(id),
            beet_id is None ==> final(self).elements@ == Map::<u64, E>::empty(),
            removed@ == old(self).elements@.remove_keys(final(self).elements@.dom()),
    {
        match beet_id {
            Some(id) => {
                let mut removed = HashMap::new();
                match self.elements.remove(&id) {
                    Some(el) => {
                        removed.insert(id, el);
                    },
                    None => {},
                }
                assert(removed@ =~= old(self).elements@.remove_keys(self.elements@.dom()));
                removed
            },
            None => {
                let mut removed = HashMap::new();
                std::mem::swap(&mut removed, &mut self.elements);
                assert(removed@ =~= old(self).elements@.remove_keys(self.elements@.dom()));
                removed
            },
        }
    }

    /// Shows `element` for entity `id`, in place of any element it had.
    pub fn insert(&mut self, id: u64, element: E)
        ensures
            final(self).elements@ == old(self).elements@.insert(id, element),
    {
        self.elements.insert(id, element);
    }

    /// One update of the game: first the despawn requests, in order, then the
    /// elements created for new bees and flowers, in order. Returns, for each
    /// despawn request, the entries it removed.
    pub fn update(&mut self, despawns: &Vec<Option<u64>>, created: Vec<(u64, E)>) -> (removed: Vec<HashMap<u64, E>>)
        ensures
            final(self).elements@ == after_inserts(after_despawns(old(self).elements@, despawns@), created@),
            removed@.len() == despawns@.len(),
            forall|i: int|
                0 <= i < despawns@.len() ==> (#[trigger] removed@[i])@ == despawned_at(
                    old(self).elements@,
                    despawns@,
                    i,
                ),
    {
        let ghost start = self.elements@;
        let mut removed: Vec<HashMap<u64, E>> = Vec::new();
        let n = despawns.len();
        for i in 0..n
            invariant
                n == despawns@.len(),
                self.elements@ == after_despawns(start, despawns@.take(i as int)),
                removed@.len() == i,
                forall|j: int|
                    0 <= j < i ==> (#[trigger] removed@[j])@ == despawned_at(start, despawns@, j),
        {
            assert(despawns@.take(i + 1).drop_last() == despawns@.take(i as int));
            let r = self.despawn(despawns[i]);
            removed.push(r);
            assert(self.elements@ == after_despawns(start, despawns@.take(i + 1)));
        }
        assert(despawns@.take(n as int) == despawns@);
        let ghost mid = self.elements@;
        let ghost cs = created@;
        let mut created = created;
        let m = created.len();
        let mut k: usize = 0;
        while created.len() > 0
            invariant
                m == cs.len(),
                k <= m,
                created@ == cs.subrange(k as int, m as int),
                self.elements@ == after_inserts(mid, cs.take(k as int)),
            decreases created.len(),
        {
            let (id, el) = created.remove(0);
            proof {
                assert(cs.take(k + 1).drop_last() == cs.take(k as int));
                assert(cs[k as int] == (id, el));
                assert(cs.take(k + 1).last() == cs[k as int]);
            }
            self.insert(id, el);
            k = k + 1;
            assert(created@ =~= cs.subrange(k as int, m as int));
        }
        assert(cs.take(m as int) == cs);
        removed
    }
}

} // verus!
