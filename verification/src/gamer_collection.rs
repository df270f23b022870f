//! Gamer collections: the snapshot enumerator XNA exposes, the range check
//! of the integer indexer, the per-position element cache that makes
//! repeated reads answer the same gamer, and the signed-in roster cache that
//! keeps a gamer's facade while the roster still holds that gamer.

#![allow(non_snake_case)]

use vstd::prelude::*;

use crate::error::{CnaError, InputError};

verus! {

/// Where a gamer enumerator stands.
pub struct GamerEnumeratorView<T> {
    pub items: Seq<T>,
    pub position: Option<usize>,
    pub disposed: bool,
}

/// XNA `GamerCollection<T>.GamerCollectionEnumerator`: a cursor over a
/// snapshot of the collection.
#[derive(Clone)]
pub struct GamerCollectionEnumerator<T> {
    items: Vec<T>,
    position: Option<usize>,
    disposed: bool,
}

impl<T> View for GamerCollectionEnumerator<T> {
    type V = GamerEnumeratorView<T>;

    closed spec fn view(&self) -> GamerEnumeratorView<T> {
        GamerEnumeratorView { items: self.items@, position: self.position, disposed: self.disposed }
    }
}

/// The position a move goes to: the first, or the next one up.
pub open spec fn gamer_next_position(position: Option<usize>) -> usize {
    match position {
        None => 0,
        Some(p) => if p == usize::MAX { p } else { (p + 1) as usize },
    }
}

/// Whether the enumerator stands on an item.
pub open spec fn has_current<T>(view: GamerEnumeratorView<T>) -> bool {
    &&& !view.disposed
    &&& view.position is Some
    &&& view.position->0 < view.items.len()
}

impl<T: Clone> GamerCollectionEnumerator<T> {
    /// An enumerator over `items`, before the first.
    pub fn new(items: Vec<T>) -> (r: Self)
        ensures
            r@ == (GamerEnumeratorView { items: items@, position: None, disposed: false }),
    {
        GamerCollectionEnumerator { items, position: None, disposed: false }
    }

    /// CLR `IEnumerator.MoveNext`: a disposed enumerator stays put and
    /// reports the input error; otherwise it moves on and answers whether
    /// an item is there.
    pub fn MoveNext(&mut self) -> (r: Result<bool, CnaError>)
        ensures
            old(self)@.disposed ==> r == Err::<bool, CnaError>(CnaError::InvalidInput(InputError::GamerEnumeratorDisposed))
                && final(self)@ == old(self)@,
            !old(self)@.disposed ==> r == Ok::<bool, CnaError>(gamer_next_position(old(self)@.position) < old(self)@.items.len())
                && final(self)@ == (GamerEnumeratorView {
                    position: Some(gamer_next_position(old(self)@.position)),
                    ..old(self)@
                }),
    {
        if self.disposed {
            return Err(CnaError::InvalidInput(InputError::GamerEnumeratorDisposed));
        }
        let next: usize = match self.position {
            None => 0,
            Some(value) => value.saturating_add(1),
        };
        self.position = Some(next);
        Ok(next < self.items.len())
    }

    /// CLR `IEnumerator<T>.Current`: the item the enumerator stands on,
    /// cloned. There is none before the first move, past the last item, or
    /// once disposed.
    pub fn Current(&self) -> (r: T)
        requires
            has_current(self@),
        ensures
            cloned(self@.items[self@.position->0 as int], r),
    {
        let position = match self.position {
            Some(position) => position,
            None => 0,
        };
        self.items[position].clone()
    }

    /// CLR `IEnumerator.Dispose`: the cursor is spent.
    pub fn Dispose(&mut self)
        ensures
            final(self)@ == (GamerEnumeratorView { position: None, disposed: true, ..old(self)@ }),
    {
        self.disposed = true;
        self.position = None;
    }
}

/// From a fresh enumerator, the `k + 1`-th move answers `true` and stands on
/// item `k`, for every item of the snapshot.
pub proof fn law_gamer_enumerator_visits_items_in_order<T>(items: Seq<T>, k: usize)
    requires
        k < items.len(),
    ensures
        gamer_next_position(if k == 0 { None } else { Some((k - 1) as usize) }) == k,
        has_current(GamerEnumeratorView { items, position: Some(k), disposed: false }),
{
}

/// The index check of the CLR integer indexer over a collection of `count`
/// elements; answers the position when it is in range.
pub fn checked_gamer_index(count: i32, index: i32, error: InputError) -> (r: Result<usize, CnaError>)
    ensures
        0 <= index < count ==> r == Ok::<usize, CnaError>(index as usize),
        !(0 <= index < count) ==> r == Err::<usize, CnaError>(CnaError::InvalidInput(error)),
{
    if index < 0 || index >= count {
        return Err(CnaError::InvalidInput(error));
    }
    Ok(index as usize)
}

/// The element cache of a gamer collection: one place per position, filled
/// on first read.
pub struct GamerCollectionCache<T> {
    cache: Vec<Option<T>>,
}

impl<T> View for GamerCollectionCache<T> {
    type V = Seq<Option<T>>;

    closed spec fn view(&self) -> Seq<Option<T>> {
        self.cache@
    }
}

/// A cache grown to at least `count` places, new places empty.
pub open spec fn cache_grown<T>(cache: Seq<Option<T>>, count: nat) -> Seq<Option<T>> {
    if cache.len() < count {
        cache + Seq::new((count - cache.len()) as nat, |i: int| None::<T>)
    } else {
        cache
    }
}

impl<T: Clone> GamerCollectionCache<T> {
    /// An empty cache.
    pub fn new() -> (r: Self)
        ensures
            r@ == Seq::<Option<T>>::empty(),
    {
        GamerCollectionCache { cache: Vec::new() }
    }

    /// The first half of a read of position `index` in a collection of
    /// `count` elements: the range check, failing with `error`, then the
    /// cached element if the position was read before. `Ok(None)` asks the caller to fetch the
    /// element and `store` it.
    pub fn lookup(&mut self, count: i32, index: i32, error: InputError) -> (r: Result<Option<T>, CnaError>)
        ensures
            !(0 <= index < count) ==> r == Err::<Option<T>, CnaError>(CnaError::InvalidInput(error))
                && final(self)@ == old(self)@,
            0 <= index < count ==> final(self)@ == cache_grown(old(self)@, count as nat) && r is Ok
                && (r->Ok_0 is None <==> final(self)@[index as int] is None)
                && (r->Ok_0 matches Some(v) ==> cloned(final(self)@[index as int]->0, v)),
    {
        let position = checked_gamer_index(count, index, error)?;
        let wanted: usize = count as usize;
        let ghost before = self.cache@;
        while self.cache.len() < wanted
            invariant
                wanted == count as nat,
                before.len() <= self.cache@.len() <= if before.len() < wanted { wanted as nat } else { before.len() },
                self.cache@ == before + Seq::new((self.cache@.len() - before.len()) as nat, |i: int| None::<T>),
            decreases wanted - self.cache@.len(),
        {
            self.cache.push(None);
            assert(self.cache@ =~= before + Seq::new((self.cache@.len() - before.len()) as nat, |i: int| None::<T>));
        }
        assert(self.cache@ =~= cache_grown(before, count as nat));
        match &self.cache[position] {
            Some(existing) => Ok(Some(existing.clone())),
            None => Ok(None),
        }
    }

    /// The second half of a read: keeps the fetched element at its position.
    pub fn store(&mut self, position: usize, value: T)
        requires
            position < old(self)@.len(),
        ensures
            final(self)@ == old(self)@.update(position as int, Some(value)),
    {
        self.cache.set(position, Some(value));
    }
}

/// What the roster cache holds: for each position, the gamertag read there
/// and the facade built for it.
pub struct RosterCache<G> {
    entries: Vec<(String, G)>,
}

impl<G> View for RosterCache<G> {
    type V = Seq<(Seq<char>, G)>;

    closed spec fn view(&self) -> Seq<(Seq<char>, G)> {
        Seq::new(self.entries@.len(), |i: int| (self.entries@[i].0@, self.entries@[i].1))
    }
}

/// Whether the fresh facade took `position` and was answered.
pub open spec fn roster_replaced<G: Clone>(entries: Seq<(Seq<char>, G)>, position: usize, gamertag: Seq<char>, fresh: G, r: G) -> bool {
    &&& entries[position as int].0 == gamertag
    &&& cloned(fresh, entries[position as int].1)
    &&& r == fresh
}

impl<G: Clone> RosterCache<G> {
    /// An empty roster cache.
    pub fn new() -> (r: Self)
        ensures
            r@ == Seq::<(Seq<char>, G)>::empty(),
    {
        RosterCache { entries: Vec::new() }
    }

    /// The second half of `SignedInGamerCollection.this[int]`, after the
    /// range check and after the roster answered a fresh facade and its
    /// gamertag for `position`. The cache grows to `count` places, new ones
    /// holding an empty tag and a clone of the fresh facade. The cached
    /// facade at `position` is answered while it carries the same gamertag
    /// and `is_released` says it is still live; otherwise the fresh one
    /// replaces it and is answered.
    pub fn resolve<F: Fn(&G) -> bool>(&mut self, count: usize, position: usize, gamertag: String, fresh: G, is_released: F) -> (r: G)
        requires
            position < count,
            forall|g: &G| #[trigger] is_released.requires((g,)),
        ensures
            final(self)@.len() == if old(self)@.len() < count { count as nat } else { old(self)@.len() },
            forall|k: int| 0 <= k < old(self)@.len() && k != position ==> #[trigger] final(self)@[k] == old(self)@[k],
            forall|k: int| old(self)@.len() <= k < final(self)@.len() && k != position ==> (#[trigger] final(self)@[k]).0
                == Seq::<char>::empty() && cloned(fresh, final(self)@[k].1),
            roster_replaced(final(self)@, position, gamertag@, fresh, r) || ({
                let cached = if position < old(self)@.len() { old(self)@[position as int] } else { final(self)@[position as int] };
                &&& cached.0 == gamertag@
                &&& is_released.ensures((&cached.1,), false)
                &&& final(self)@[position as int] == cached
                &&& cloned(cached.1, r)
            }),
            position < old(self)@.len() && old(self)@[position as int].0 != gamertag@
                ==> roster_replaced(final(self)@, position, gamertag@, fresh, r),
            position < old(self)@.len() && old(self)@[position as int].0 == gamertag@
                && (forall|b: bool| #[trigger] is_released.ensures((&old(self)@[position as int].1,), b) ==> !b)
                ==> final(self)@[position as int] == old(self)@[position as int] && cloned(old(self)@[position as int].1, r),
            position < old(self)@.len() && old(self)@[position as int].0 == gamertag@
                && (forall|b: bool| #[trigger] is_released.ensures((&old(self)@[position as int].1,), b) ==> b)
                ==> roster_replaced(final(self)@, position, gamertag@, fresh, r),
            position >= old(self)@.len() && gamertag@ != Seq::<char>::empty()
                ==> roster_replaced(final(self)@, position, gamertag@, fresh, r),
    {
        let ghost before = self.entries@;
        while self.entries.len() < count
            invariant
                before.len() <= self.entries@.len() <= if before.len() < count { count as nat } else { before.len() },
                forall|k: int| 0 <= k < before.len() ==> #[trigger] self.entries@[k] == before[k],
                forall|k: int| before.len() <= k < self.entries@.len() ==> (#[trigger] self.entries@[k]).0@
                    == Seq::<char>::empty() && cloned(fresh, self.entries@[k].1),
            decreases count - self.entries@.len(),
        {
            let copy = fresh.clone();
            self.entries.push((String::new(), copy));
        }
        let ghost grown = self.entries@;
        let reuse: bool = self.entries[position].0 == gamertag && !is_released(&self.entries[position].1);
        if reuse {
            self.entries[position].1.clone()
        } else {
            let copy = fresh.clone();
            self.entries.set(position, (gamertag, copy));
            fresh
        }
    }
}

} // verus!
