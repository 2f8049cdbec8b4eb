//! The resources that a game object holds, and updates to them.
use vstd::prelude::*;

use crate::resources::{
    distinct_keys, entries_map, lookup, ResourceAmounts, ResourceType,
};
use crate::updatable::Updatable;

verus! {

/// The resources and amounts of each resource some game object holds.
#[derive(Debug, PartialEq, Eq)]
pub struct Store(pub ResourceAmounts);

/// Update structure for `Store`. Unlike a `Store`, it keeps amounts of 0: they mean that the
/// resource is gone.
#[derive(Debug, PartialEq, Eq)]
pub struct StoreUpdate(pub ResourceAmounts);

impl View for Store {
    type V = Map<ResourceType, i32>;

    open spec fn view(&self) -> Map<ResourceType, i32> {
        self.0@
    }
}

impl View for StoreUpdate {
    type V = Map<ResourceType, i32>;

    open spec fn view(&self) -> Map<ResourceType, i32> {
        self.0@
    }
}

impl DeepView for Store {
    type V = Map<ResourceType, i32>;

    open spec fn deep_view(&self) -> Map<ResourceType, i32> {
        self.0@
    }
}

impl DeepView for StoreUpdate {
    type V = Map<ResourceType, i32>;

    open spec fn deep_view(&self) -> Map<ResourceType, i32> {
        self.0@
    }
}

/// The amount of `k` in the store `m`: what it holds, or 0.
pub open spec fn store_amount(m: Map<ResourceType, i32>, k: ResourceType) -> i32 {
    if m.contains_key(k) {
        m[k]
    } else {
        0
    }
}

/// No resource is held with an amount of 0.
pub open spec fn no_zero_amounts(m: Map<ResourceType, i32>) -> bool {
    forall|k: ResourceType| #[trigger] m.contains_key(k) ==> m[k] != 0
}

/// The entries of `u` whose amount is not 0.
pub open spec fn nonzero_part(u: Map<ResourceType, i32>) -> Map<ResourceType, i32> {
    Map::new(|k: ResourceType| u.contains_key(k) && u[k] != 0, |k: ResourceType| u[k])
}

/// The store `v` after the update `u`: each resource that `u` names gets the amount it names,
/// and is gone where that amount is 0; the others keep what they had.
pub open spec fn store_applied(v: Map<ResourceType, i32>, u: Map<ResourceType, i32>) -> Map<
    ResourceType,
    i32,
> {
    Map::new(
        |k: ResourceType|
            if u.contains_key(k) {
                u[k] != 0
            } else {
                v.contains_key(k)
            },
        |k: ResourceType|
            if u.contains_key(k) {
                u[k]
            } else {
                v[k]
            },
    )
}

/// The store that the map entries `s` describe, read in order: a missing amount counts as 0,
/// and an amount of 0 is not stored.
pub open spec fn store_from_seq(s: Seq<(ResourceType, Option<i32>)>) -> Map<ResourceType, i32>
    decreases s.len(),
{
    if s.len() == 0 {
        Map::empty()
    } else {
        let m = store_from_seq(s.drop_last());
        let a = match s.last().1 {
            Some(v) => v,
            None => 0,
        };
        if a != 0 {
            m.insert(s.last().0, a)
        } else {
            m
        }
    }
}

/// The store update that the map entries `s` describe, read in order: a missing amount
/// counts as 0, and is kept.
pub open spec fn update_from_seq(s: Seq<(ResourceType, Option<i32>)>) -> Map<ResourceType, i32>
    decreases s.len(),
{
    if s.len() == 0 {
        Map::empty()
    } else {
        let a = match s.last().1 {
            Some(v) => v,
            None => 0,
        };
        update_from_seq(s.drop_last()).insert(s.last().0, a)
    }
}

proof fn lemma_entries_map_push(e: Seq<(ResourceType, i32)>, p: (ResourceType, i32))
    ensures
        entries_map(e.push(p)) == entries_map(e).insert(p.0, p.1),
{
    assert forall|k: ResourceType| #[trigger] lookup(e.push(p), k) == (if p.0 == k {
        Some(p.1)
    } else {
        lookup(e, k)
    }) by {
        assert(e.push(p).drop_last() =~= e);
    }
    assert(entries_map(e.push(p)) =~= entries_map(e).insert(p.0, p.1));
}

impl Store {
    /// An empty store.
    pub fn new() -> (r: Self)
        ensures
            r@ == Map::<ResourceType, i32>::empty(),
    {
        Store(ResourceAmounts::new())
    }

    /// The contents of this store: each resource type with its amount, each once.
    pub fn iter(&self) -> (r: Vec<(ResourceType, i32)>)
        ensures
            distinct_keys(r@),
            entries_map(r@) == self@,
    {
        self.0.entries()
    }

    /// Get the amount of a specific resource in this store.
    pub fn get(&self, resource: ResourceType) -> (r: i32)
        ensures
            r == store_amount(self@, resource),
    {
        match self.0.get(resource) {
            Some(v) => v,
            None => 0,
        }
    }

    /// The store that the entries of a map read from the server describe: a missing amount
    /// counts as 0, and amounts of 0 are left out.
    pub fn from_entries(entries: Vec<(ResourceType, Option<i32>)>) -> (r: Self)
        ensures
            r@ == store_from_seq(entries@),
    {
        let mut values = ResourceAmounts::new();
        let mut i: usize = 0;
        while i < entries.len()
            invariant
                i <= entries@.len(),
                values@ == store_from_seq(entries@.take(i as int)),
            decreases entries.len() - i,
        {
            let (key, value) = entries[i];
            let amount: i32 = match value {
                Some(v) => v,
                None => 0,
            };
            proof {
                assert(entries@.take(i + 1).drop_last() =~= entries@.take(i as int));
            }
            if amount != 0 {
                values.insert(key, amount);
            }
            i += 1;
        }
        assert(entries@.take(i as int) =~= entries@);
        Store(values)
    }
}

impl Default for Store {
    fn default() -> (r: Self)
        ensures
            r@ == Map::<ResourceType, i32>::empty(),
    {
        Store::new()
    }
}

impl Clone for Store {
    fn clone(&self) -> (r: Self)
        ensures
            r@ == self@,
    {
        Store(self.0.clone())
    }
}

impl StoreUpdate {
    /// The update that the entries of a map read from the server describe: a missing amount
    /// counts as 0, and amounts of 0 are kept.
    pub fn from_entries(entries: Vec<(ResourceType, Option<i32>)>) -> (r: Self)
        ensures
            r@ == update_from_seq(entries@),
    {
        let mut values = ResourceAmounts::new();
        let mut i: usize = 0;
        while i < entries.len()
            invariant
                i <= entries@.len(),
                values@ == update_from_seq(entries@.take(i as int)),
            decreases entries.len() - i,
        {
            let (key, value) = entries[i];
            let amount: i32 = match value {
                Some(v) => v,
                None => 0,
            };
            proof {
                assert(entries@.take(i + 1).drop_last() =~= entries@.take(i as int));
            }
            values.insert(key, amount);
            i += 1;
        }
        assert(entries@.take(i as int) =~= entries@);
        StoreUpdate(values)
    }
}

impl Default for StoreUpdate {
    fn default() -> (r: Self)
        ensures
            r@ == Map::<ResourceType, i32>::empty(),
    {
        StoreUpdate(ResourceAmounts::new())
    }
}

impl Clone for StoreUpdate {
    fn clone(&self) -> (r: Self)
        ensures
            r@ == self@,
    {
        StoreUpdate(self.0.clone())
    }
}

impl Updatable for Store {
    type Update = StoreUpdate;

    open spec fn applied(v: Map<ResourceType, i32>, u: Map<ResourceType, i32>) -> Map<
        ResourceType,
        i32,
    > {
        store_applied(v, u)
    }

    open spec fn created(u: Map<ResourceType, i32>) -> Option<Map<ResourceType, i32>> {
        Some(nonzero_part(u))
    }

    fn apply_update(&mut self, update: StoreUpdate) {
        let es = update.0.entries();
        let ghost start = self@;
        let mut i: usize = 0;
        assert(es@.take(0) =~= Seq::<(ResourceType, i32)>::empty());
        assert(store_applied(start, entries_map(es@.take(0))) =~= start);
        while i < es.len()
            invariant
                i <= es@.len(),
                self@ == store_applied(start, entries_map(es@.take(i as int))),
            decreases es.len() - i,
        {
            let (key, value) = es[i];
            let ghost before = entries_map(es@.take(i as int));
            proof {
                assert(es@.take(i + 1) =~= es@.take(i as int).push((key, value)));
                lemma_entries_map_push(es@.take(i as int), (key, value));
            }
            if value == 0 {
                self.0.remove(key);
                assert(self@ =~= store_applied(start, before.insert(key, value)));
            } else {
                self.0.insert(key, value);
                assert(self@ =~= store_applied(start, before.insert(key, value)));
            }
            i += 1;
        }
        assert(es@.take(i as int) =~= es@);
    }

    fn create_from_update(update: StoreUpdate) -> (r: Option<Store>) {
        let es = update.0.entries();
        let mut values = ResourceAmounts::new();
        let mut i: usize = 0;
        assert(es@.take(0) =~= Seq::<(ResourceType, i32)>::empty());
        assert(nonzero_part(entries_map(es@.take(0))) =~= values@);
        while i < es.len()
            invariant
                i <= es@.len(),
                values@ == nonzero_part(entries_map(es@.take(i as int))),
            decreases es.len() - i,
        {
            let (key, value) = es[i];
            let ghost before = entries_map(es@.take(i as int));
            proof {
                assert(es@.take(i + 1) =~= es@.take(i as int).push((key, value)));
                lemma_entries_map_push(es@.take(i as int), (key, value));
            }
            if value != 0 {
                values.insert(key, value);
            } else {
                values.remove(key);
            }
            assert(values@ =~= nonzero_part(before.insert(key, value)));
            i += 1;
        }
        assert(es@.take(i as int) =~= es@);
        Some(Store(values))
    }
}

/// Applying an update to a store that holds no amount of 0 gives a store that holds none.
pub proof fn lemma_store_update_keeps_nonzero(v: Map<ResourceType, i32>, u: Map<ResourceType, i32>)
    requires
        no_zero_amounts(v),
    ensures
        no_zero_amounts(<Store as Updatable>::applied(v, u)),
{
}

/// Creating a store from an update gives what applying that update to an empty store gives.
pub proof fn lemma_store_create_is_apply_to_empty(u: Map<ResourceType, i32>)
    ensures
        <Store as Updatable>::created(u) == Some(
            <Store as Updatable>::applied(Map::<ResourceType, i32>::empty(), u),
        ),
{
    assert(nonzero_part(u) =~= store_applied(Map::<ResourceType, i32>::empty(), u));
}

/// After an update, the amount of each resource the update names is the amount it names, and
/// the amount of every other resource is unchanged.
pub proof fn lemma_store_update_amounts(
    v: Map<ResourceType, i32>,
    u: Map<ResourceType, i32>,
    k: ResourceType,
)
    ensures
        store_amount(<Store as Updatable>::applied(v, u), k) == (if u.contains_key(k) {
            u[k]
        } else {
            store_amount(v, k)
        }),
{
}

/// A store read from the server never holds an amount of 0.
pub proof fn lemma_store_from_seq_nonzero(s: Seq<(ResourceType, Option<i32>)>)
    ensures
        no_zero_amounts(store_from_seq(s)),
    decreases s.len(),
{
    if s.len() > 0 {
        lemma_store_from_seq_nonzero(s.drop_last());
    }
}

} // verus!
