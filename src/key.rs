use std::marker::PhantomData;
use vstd::prelude::*;

use crate::error::InheritableAccessError;
use crate::registry::SlotRegistry;
use crate::table::{
    access, active_view, maybe_init_task_locals, new_task_local_table, scoped,
    TaskLocalInheritableTable,
};

verus! {

/// A slot: the identifier of one cell in every table, and the type of the
/// value it holds. It owns no value itself.
pub struct InheritableLocalKey<T> {
    key: usize,
    _phantom: PhantomData<T>,
}

impl<T> InheritableLocalKey<T> {
    /// The slot's identifier.
    pub closed spec fn id(&self) -> nat {
        self.key as nat
    }

    /// Declares a slot, with the next identifier of `registry`.
    pub fn _new(registry: &mut SlotRegistry) -> (r: Self)
        requires
            old(registry).count() < usize::MAX,
        ensures
            r.id() == old(registry).count(),
            final(registry).count() == old(registry).count() + 1,
    {
        InheritableLocalKey { key: registry.register(), _phantom: PhantomData }
    }

    /// The slot's identifier.
    pub fn key(&self) -> (r: usize)
        ensures
            r == self.id(),
    {
        self.key
    }

    /// The table that a scope binding `value` to this slot runs with, where
    /// `active` is the active table: a duplicate of it (or an empty table),
    /// brought to the registry's width, with `value` in this slot's cell.
    /// `active` itself is left as it is.
    pub fn scope_table(
        &self,
        registry: &SlotRegistry,
        active: Option<&TaskLocalInheritableTable<T>>,
        value: T,
    ) -> (r: TaskLocalInheritableTable<T>)
        requires
            self.id() < registry.count(),
        ensures
            r@ == scoped(active_view(active), registry.count(), self.id(), value),
    {
        let mut t = match active {
            Some(a) => {
                let mut t = a.duplicate();
                maybe_init_task_locals(&mut t, registry);
                t
            },
            None => new_task_local_table(registry),
        };
        t.bind(self.key, value);
        t
    }

    /// Runs `f` with the table of a scope that binds `value` to this slot, and
    /// returns what `f` returns. Once `f` returns the scope's table is dropped
    /// (its values live on in the tables that `f` captured from it), and the
    /// caller's `active` table is unchanged.
    pub fn sync_scope<F, R>(
        &self,
        registry: &SlotRegistry,
        active: Option<&TaskLocalInheritableTable<T>>,
        value: T,
        f: F,
    ) -> (r: R) where F: FnOnce(&TaskLocalInheritableTable<T>) -> R
        requires
            self.id() < registry.count(),
            forall|t: &TaskLocalInheritableTable<T>|
                t@ == scoped(active_view(active), registry.count(), self.id(), value)
                    ==> #[trigger] f.requires((t,)),
        ensures
            exists|t: &TaskLocalInheritableTable<T>|
                t@ == scoped(active_view(active), registry.count(), self.id(), value)
                    && #[trigger] f.ensures((t,), r),
    {
        let t = self.scope_table(registry, active, value);
        f(&t)
    }

    /// Runs `f` on this slot's value in `active`, and returns what `f`
    /// returns. The slot must be bound there.
    pub fn with<F, R>(&self, active: Option<&TaskLocalInheritableTable<T>>, f: F) -> (r: R) where
        F: FnOnce(&T) -> R,

        requires
            access(active_view(active), self.id()) is Ok,
            f.requires((&access(active_view(active), self.id())->Ok_0,)),
        ensures
            f.ensures((&access(active_view(active), self.id())->Ok_0,), r),
    {
        match active {
            Some(t) => match t.cell(self.key) {
                Some(v) => f(v),
                None => unreached(),
            },
            None => unreached(),
        }
    }

    /// Runs `f` on this slot's value in `active` where it is bound; otherwise
    /// says why it is not.
    pub fn try_with<F, R>(&self, active: Option<&TaskLocalInheritableTable<T>>, f: F) -> (r: Result<
        R,
        InheritableAccessError,
    >) where F: FnOnce(&T) -> R
        requires
            access(active_view(active), self.id()) is Ok ==> f.requires(
                (&access(active_view(active), self.id())->Ok_0,),
            ),
        ensures
            match access(active_view(active), self.id()) {
                Ok(v) => r is Ok && f.ensures((&v,), r->Ok_0),
                Err(e) => r == Err::<R, InheritableAccessError>(e),
            },
    {
        match active {
            None => Err(InheritableAccessError::NotInTokio),
            Some(t) => {
                if t.is_empty() {
                    return Err(InheritableAccessError::TableEmpty);
                }
                if self.key >= t.len() {
                    return Err(InheritableAccessError::InvalidKey);
                }
                match t.cell(self.key) {
                    Some(v) => Ok(f(v)),
                    None => Err(InheritableAccessError::NotInTable),
                }
            },
        }
    }
}

impl<T: Clone> InheritableLocalKey<T> {
    /// A clone of this slot's value in `active`. The slot must be bound there.
    pub fn get(&self, active: Option<&TaskLocalInheritableTable<T>>) -> (r: T)
        requires
            access(active_view(active), self.id()) is Ok,
        ensures
            cloned::<T>(access(active_view(active), self.id())->Ok_0, r),
    {
        self.with(active, |v: &T| -> (c: T)
            ensures
                cloned::<T>(*v, c),
            { v.clone() })
    }
}

} // verus!
