//! Host function environments: typed references to host state that the
//! store owns, and the borrowing view a host function works through.

use crate::store::{StoreHandle, StoreId, StoreObjects};
use std::marker::PhantomData;
use vstd::prelude::*;
use vstd::std_specs::cmp::PartialEqSpecImpl;

verus! {

/// An opaque reference to a function environment. The environment's data is
/// owned by the store; this is only the handle to it, tagged with the type of
/// the data.
#[derive(Debug, Hash)]
pub struct FunctionEnv<T> {
    handle: StoreHandle,
    marker: PhantomData<T>,
}

impl<T> FunctionEnv<T> {
    /// The handle of the slot that holds the data.
    pub closed spec fn handle(&self) -> StoreHandle {
        self.handle
    }

    /// Whether this environment may be resolved in `store`.
    pub open spec fn valid_in(&self, store: &StoreObjects<T>) -> bool {
        self.handle().valid_in(store)
    }

    /// The data that this environment names among `objects`, the contents of
    /// a store.
    pub open spec fn data_in(&self, objects: Seq<T>) -> T
        recommends
            0 <= self.handle().index() < objects.len(),
    {
        objects[self.handle().index()]
    }

    /// Moves `value` into the store and returns the environment that names it.
    pub fn new(store: &mut StoreObjects<T>, value: T) -> (env: Self)
        where T: Send + 'static
        ensures
            final(store)@ == old(store)@.push(value),
            final(store).spec_id() == old(store).spec_id(),
            env.handle().spec_store_id() == old(store).spec_id(),
            env.handle().index() == old(store)@.len(),
            env.valid_in(final(store)),
            env.data_in(final(store)@) == value,
    {
        FunctionEnv { handle: StoreHandle::new(store, value), marker: PhantomData }
    }

    /// Whether this environment may be resolved in `store`.
    pub fn belongs_to(&self, store: &StoreObjects<T>) -> (ok: bool)
        ensures
            ok == self.valid_in(store),
    {
        self.handle.belongs_to(store)
    }

    /// The data, for reading.
    pub fn as_ref<'a>(&self, store: &'a StoreObjects<T>) -> (data: &'a T)
        where T: Send + 'static
        requires
            self.valid_in(store),
        ensures
            *data == self.data_in(store@),
    {
        self.handle.get(store)
    }

    /// The data, for writing. Only this environment's slot can change.
    pub fn as_mut<'a>(&self, store: &'a mut StoreObjects<T>) -> (data: &'a mut T)
        where T: Send + 'static
        requires
            self.valid_in(old(store)),
        ensures
            *data == self.data_in(old(store)@),
            final(store)@ == old(store)@.update(self.handle().index(), *final(data)),
            final(store).spec_id() == old(store).spec_id(),
    {
        self.handle.get_mut(store)
    }

    /// Binds this environment to a mutable borrow of its store, for the time
    /// of one host call.
    pub fn into_mut<'a>(self, store: &'a mut StoreObjects<T>) -> (view: FunctionEnvMut<'a, T>)
        where T: Send + 'static
        requires
            self.valid_in(old(store)),
        ensures
            view.func_env() == self,
            view.objects() == old(store)@,
            view.store_id() == old(store).spec_id(),
            view.wf(),
            *final(store) == *final(view.store_mut),
    {
        FunctionEnvMut { store_mut: store, func_env: self }
    }
}

impl<T> Clone for FunctionEnv<T> {
    /// Copies the handle, never the data.
    fn clone(&self) -> (copy: Self)
        ensures
            copy == *self,
    {
        FunctionEnv { handle: self.handle, marker: PhantomData }
    }
}

impl<T> PartialEq for FunctionEnv<T> {
    fn eq(&self, other: &Self) -> (equal: bool)
    {
        self.handle == other.handle
    }
}

impl<T> PartialEqSpecImpl for FunctionEnv<T> {
    open spec fn obeys_eq_spec() -> bool {
        true
    }

    open spec fn eq_spec(&self, other: &Self) -> bool {
        self.handle() == other.handle()
    }
}

impl<T> Eq for FunctionEnv<T> {}

/// A value placed in a store is what its environment reads back there:
/// the environment made for the next free slot of `before` names `value`
/// once `value` has been pushed.
pub proof fn lemma_new_then_as_ref<T>(before: Seq<T>, env: FunctionEnv<T>, value: T)
    requires
        env.handle().index() == before.len(),
    ensures
        env.data_in(before.push(value)) == value,
        forall|other: FunctionEnv<T>|
            0 <= other.handle().index() < before.len() ==> #[trigger] other.data_in(
                before.push(value),
            ) == other.data_in(before),
{
}

/// A temporary view of a function environment together with the exclusive
/// borrow of the store that holds its data.
pub struct FunctionEnvMut<'a, T> {
    /// The exclusive borrow of the store.
    pub store_mut: &'a mut StoreObjects<T>,
    /// The environment resolved in it.
    pub func_env: FunctionEnv<T>,
}

impl<'a, T: Send + 'static> FunctionEnvMut<'a, T> {
    /// The environment that this view is bound to.
    pub open spec fn func_env(&self) -> FunctionEnv<T> {
        self.func_env
    }

    /// The borrowed store as it is now.
    pub open spec fn store(&self) -> StoreObjects<T> {
        *self.store_mut
    }

    /// What the borrowed store holds.
    pub open spec fn objects(&self) -> Seq<T> {
        (*self.store_mut)@
    }

    /// The environment resolves in the borrowed store.
    pub open spec fn wf(&self) -> bool {
        self.func_env.valid_in(&*self.store_mut)
    }

    /// The identity of the borrowed store.
    pub open spec fn store_id(&self) -> StoreId {
        (*self.store_mut).spec_id()
    }

    /// The host state of this environment, for reading.
    pub fn data(&self) -> (data: &T)
        requires
            self.wf(),
        ensures
            *data == self.func_env().data_in(self.objects()),
    {
        self.func_env.as_ref(&*self.store_mut)
    }

    /// The host state of this environment, for writing. Only this
    /// environment's slot can change.
    pub fn data_mut(&mut self) -> (data: &mut T)
        requires
            old(self).wf(),
        ensures
            *data == old(self).func_env().data_in(old(self).objects()),
            final(self).objects() == old(self).objects().update(
                old(self).func_env().handle().index(),
                *final(data),
            ),
            final(self).func_env() == old(self).func_env(),
            final(self).store_id() == old(self).store_id(),
            *final(final(self).store_mut) == *final(old(self).store_mut),
            final(self).wf(),
    {
        self.func_env.as_mut(&mut *self.store_mut)
    }

    /// The borrowed store, for reading.
    pub fn as_store_ref(&self) -> (store: &StoreObjects<T>)
        ensures
            *store == self.store(),
    {
        &*self.store_mut
    }

    /// The borrowed store, for writing. The view keeps its environment and
    /// holds afterwards whatever the store was left as.
    pub fn as_store_mut(&mut self) -> (store: &mut StoreObjects<T>)
        ensures
            *store == old(self).store(),
            final(self).store() == *final(store),
            final(self).func_env() == old(self).func_env(),
            *final(final(self).store_mut) == *final(old(self).store_mut),
    {
        &mut *self.store_mut
    }

    /// Borrows this view anew, for a shorter time. The new view starts from
    /// what this one holds now; what it leaves behind is what this one holds
    /// once the new view has been given up.
    pub fn as_mut(&mut self) -> (view: FunctionEnvMut<'_, T>)
        requires
            old(self).wf(),
        ensures
            view.func_env() == old(self).func_env(),
            view.objects() == old(self).objects(),
            view.store_id() == old(self).store_id(),
            view.wf(),
            final(self).objects() == (*final(view.store_mut))@,
            final(self).store_id() == (*final(view.store_mut)).spec_id(),
            final(self).func_env() == old(self).func_env(),
            *final(final(self).store_mut) == *final(old(self).store_mut),
    {
        FunctionEnvMut { store_mut: &mut *self.store_mut, func_env: self.func_env.clone() }
    }
}

} // verus!
