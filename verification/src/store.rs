//! The object store: an arena that owns host values and hands out handles.

use vstd::prelude::*;

verus! {

/// Identity of one store. Two stores that live at the same time carry
/// different identities; the embedder hands them out.
#[derive(Debug, Clone, Copy, PartialEq, Eq, Structural, Hash)]
pub struct StoreId(pub u64);

/// The arena. It owns every value placed in it until it is dropped as a
/// whole: nothing is ever removed, so a slot once handed out stays in place.
pub struct StoreObjects<T> {
    id: StoreId,
    function_envs: Vec<T>,
}

/// A reference into the arena of one store: the store's identity and the
/// slot. Equality is on these two alone, never on what the slot holds.
#[derive(Debug, Clone, Copy, PartialEq, Eq, Structural, Hash)]
pub struct StoreHandle {
    id: StoreId,
    idx: usize,
}

impl<T> View for StoreObjects<T> {
    type V = Seq<T>;

    /// The values held, in the order of their slots.
    closed spec fn view(&self) -> Seq<T> {
        self.function_envs@
    }
}

impl<T> StoreObjects<T> {
    /// The identity this store was made with.
    pub closed spec fn spec_id(&self) -> StoreId {
        self.id
    }

    /// An empty store with the given identity.
    pub fn new(id: StoreId) -> (store: Self)
        ensures
            store.spec_id() == id,
            store@ == Seq::<T>::empty(),
    {
        StoreObjects { id, function_envs: Vec::new() }
    }

    /// The identity of this store.
    #[verifier::when_used_as_spec(spec_id)]
    pub fn id(&self) -> (id: StoreId)
        ensures
            id == self.spec_id(),
    {
        self.id
    }

    /// The number of values held.
    pub fn len(&self) -> (n: usize)
        ensures
            n == self@.len(),
    {
        self.function_envs.len()
    }
}

impl StoreHandle {
    /// The identity of the store that this handle was created in.
    pub closed spec fn spec_store_id(&self) -> StoreId {
        self.id
    }

    /// The slot that this handle names.
    pub closed spec fn index(&self) -> int {
        self.idx as int
    }

    /// A handle may be resolved in a store exactly when it carries that
    /// store's identity and names a slot that the store has filled.
    pub open spec fn valid_in<T>(&self, store: &StoreObjects<T>) -> bool {
        self.spec_store_id() == store.spec_id() && 0 <= self.index() < store@.len()
    }

    /// Moves `value` into the store and returns the handle to its slot. What
    /// the store held before stays where it was.
    pub fn new<T>(store: &mut StoreObjects<T>, value: T) -> (handle: Self)
        ensures
            final(store)@ == old(store)@.push(value),
            final(store).spec_id() == old(store).spec_id(),
            handle.spec_store_id() == old(store).spec_id(),
            handle.index() == old(store)@.len(),
            handle.valid_in(final(store)),
    {
        let idx: usize = store.function_envs.len();
        store.function_envs.push(value);
        StoreHandle { id: store.id, idx }
    }

    /// The identity of the store that this handle was created in.
    #[verifier::when_used_as_spec(spec_store_id)]
    pub fn store_id(&self) -> (id: StoreId)
        ensures
            id == self.spec_store_id(),
    {
        self.id
    }

    /// Whether this handle may be resolved in `store`.
    pub fn belongs_to<T>(&self, store: &StoreObjects<T>) -> (ok: bool)
        ensures
            ok == self.valid_in(store),
    {
        self.id == store.id && self.idx < store.function_envs.len()
    }

    /// The value in this handle's slot.
    pub fn get<'a, T>(&self, store: &'a StoreObjects<T>) -> (value: &'a T)
        requires
            self.valid_in(store),
        ensures
            *value == store@[self.index()],
    {
        &store.function_envs[self.idx]
    }

    /// The value in this handle's slot, for writing. Whatever is written goes
    /// to that slot and to no other.
    pub fn get_mut<'a, T>(&self, store: &'a mut StoreObjects<T>) -> (value: &'a mut T)
        requires
            self.valid_in(old(store)),
        ensures
            *value == old(store)@[self.index()],
            final(store)@ == old(store)@.update(self.index(), *final(value)),
            final(store).spec_id() == old(store).spec_id(),
    {
        &mut store.function_envs[self.idx]
    }

    /// The value in this handle's slot, or `None` where the handle does not
    /// belong to `store`.
    pub fn try_get<'a, T>(&self, store: &'a StoreObjects<T>) -> (value: Option<&'a T>)
        ensures
            match value {
                Some(v) => self.valid_in(store) && *v == store@[self.index()],
                None => !self.valid_in(store),
            },
    {
        if self.belongs_to(store) {
            Some(self.get(store))
        } else {
            None
        }
    }
}

/// Two different handles that both resolve in one store name different
/// slots: writing through one leaves what the other reads unchanged.
pub proof fn lemma_distinct_handles_do_not_alias<T>(
    store: &StoreObjects<T>,
    h1: StoreHandle,
    h2: StoreHandle,
    written: T,
)
    requires
        h1.valid_in(store),
        h2.valid_in(store),
        h1 != h2,
    ensures
        h1.index() != h2.index(),
        store@.update(h1.index(), written)[h2.index()] == store@[h2.index()],
        store@.update(h1.index(), written)[h1.index()] == written,
{
}

/// A handle never resolves in a store whose identity differs from that of the
/// store it was created in.
pub proof fn lemma_foreign_handle_is_rejected<T>(
    origin: &StoreObjects<T>,
    other: &StoreObjects<T>,
    handle: StoreHandle,
)
    requires
        handle.spec_store_id() == origin.spec_id(),
        origin.spec_id() != other.spec_id(),
    ensures
        !handle.valid_in(other),
{
}

} // verus!
