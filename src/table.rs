use std::sync::Arc;
use vstd::prelude::*;

use crate::error::InheritableAccessError;
use crate::registry::SlotRegistry;

verus! {

/// The value a cell holds, with the sharing left out.
pub open spec fn cell_value<T>(c: Option<Arc<T>>) -> Option<T> {
    match c {
        Some(a) => Some(*a),
        None => None,
    }
}

/// `cells`, extended with empty cells up to `width` where it is shorter.
pub open spec fn widened<T>(cells: Seq<Option<T>>, width: nat) -> Seq<Option<T>> {
    if cells.len() >= width {
        cells
    } else {
        cells + Seq::new((width - cells.len()) as nat, |i: int| None)
    }
}

/// The cells of the table that a unit of work captures when `active` is the
/// table active for it: that table itself, or no cells where none is active.
pub open spec fn captured<T>(active: Option<Seq<Option<T>>>) -> Seq<Option<T>> {
    match active {
        Some(cells) => cells,
        None => Seq::empty(),
    }
}

/// The cells of the table a scope runs with that binds `value` to slot `key`,
/// entered where `active` is the active table and `width` slots are registered.
pub open spec fn scoped<T>(
    active: Option<Seq<Option<T>>>,
    width: nat,
    key: nat,
    value: T,
) -> Seq<Option<T>> {
    widened(captured(active), width).update(key as int, Some(value))
}

/// What reading slot `key` gives where `active` is the active table.
pub open spec fn access<T>(active: Option<Seq<Option<T>>>, key: nat) -> Result<
    T,
    InheritableAccessError,
> {
    match active {
        None => Err(InheritableAccessError::NotInTokio),
        Some(cells) => if cells.len() == 0 {
            Err(InheritableAccessError::TableEmpty)
        } else if key >= cells.len() {
            Err(InheritableAccessError::InvalidKey)
        } else {
            match cells[key as int] {
                Some(v) => Ok(v),
                None => Err(InheritableAccessError::NotInTable),
            }
        },
    }
}

/// The values visible to one lineage of units of work: one cell per slot
/// identifier, each empty or holding a shared value. Duplicating a table
/// shares its values and never copies them.
pub struct TaskLocalInheritableTable<T> {
    inner: Vec<Option<Arc<T>>>,
}

impl<T> View for TaskLocalInheritableTable<T> {
    type V = Seq<Option<T>>;

    closed spec fn view(&self) -> Seq<Option<T>> {
        self.inner@.map_values(|c: Option<Arc<T>>| cell_value(c))
    }
}

/// The view of the table that may be active: `None` where none is.
pub open spec fn active_view<T>(active: Option<&TaskLocalInheritableTable<T>>) -> Option<
    Seq<Option<T>>,
> {
    match active {
        Some(t) => Some(t@),
        None => None,
    }
}

impl<T> TaskLocalInheritableTable<T> {
    fn new(inner: Vec<Option<Arc<T>>>) -> (r: Self)
        ensures
            r@ == inner@.map_values(|c: Option<Arc<T>>| cell_value(c)),
    {
        TaskLocalInheritableTable { inner }
    }

    /// The number of cells.
    pub fn len(&self) -> (r: usize)
        ensures
            r == self@.len(),
    {
        self.inner.len()
    }

    /// Whether the table has no cells, which means that no scope was entered
    /// in its lineage.
    pub fn is_empty(&self) -> (r: bool)
        ensures
            r == (self@.len() == 0),
    {
        self.inner.len() == 0
    }

    /// A table that shares every value of this one.
    pub fn duplicate(&self) -> (r: Self)
        ensures
            r@ == self@,
    {
        let mut inner: Vec<Option<Arc<T>>> = Vec::new();
        let mut i: usize = 0;
        while i < self.inner.len()
            invariant
                i <= self.inner@.len(),
                inner@.len() == i,
                forall|j: int| 0 <= j < i ==> inner@[j] == self.inner@[j],
            decreases self.inner@.len() - i,
        {
            let cell = match &self.inner[i] {
                Some(a) => Some(a.clone()),
                None => None,
            };
            inner.push(cell);
            i = i + 1;
        }
        let r = TaskLocalInheritableTable::new(inner);
        assert(r@ =~= self@);
        r
    }

    /// The table a unit of work captures where `active` is the active table:
    /// a duplicate of it, sharing its values, or an empty table where none is
    /// active.
    pub fn inherit(active: Option<&Self>) -> (r: Self)
        ensures
            r@ == captured(active_view(active)),
    {
        match active {
            Some(t) => t.duplicate(),
            None => {
                let r = TaskLocalInheritableTable::new(Vec::new());
                assert(r@ =~= Seq::<Option<T>>::empty());
                r
            },
        }
    }

    /// The value in the cell at `key`, if the table has that cell and it is
    /// filled.
    pub fn cell(&self, key: usize) -> (r: Option<&T>)
        ensures
            key < self@.len() && self@[key as int] is Some ==> r == Some(
                &self@[key as int]->Some_0,
            ),
            key >= self@.len() || self@[key as int] is None ==> r is None,
    {
        if key < self.inner.len() {
            match &self.inner[key] {
                Some(a) => Some(&**a),
                None => None,
            }
        } else {
            None
        }
    }

    /// Stores `value`, shared, in the cell at `key`.
    pub(crate) fn bind(&mut self, key: usize, value: T)
        requires
            key < old(self)@.len(),
        ensures
            final(self)@ == old(self)@.update(key as int, Some(value)),
    {
        self.inner.set(key, Some(Arc::new(value)));
        assert(self@ =~= old(self)@.update(key as int, Some(value)));
    }
}

/// A table with one empty cell for each slot of `registry`.
pub fn new_task_local_table<T>(registry: &SlotRegistry) -> (r: TaskLocalInheritableTable<T>)
    ensures
        r@ == Seq::new(registry.count(), |i: int| None::<T>),
{
    let mut t = TaskLocalInheritableTable::new(Vec::new());
    maybe_init_task_locals(&mut t, registry);
    assert(t@ =~= Seq::new(registry.count(), |i: int| None::<T>));
    t
}

/// Brings `table` to the width of `registry`, where it is narrower: its cells
/// are kept and the new ones are empty.
pub fn maybe_init_task_locals<T>(table: &mut TaskLocalInheritableTable<T>, registry: &SlotRegistry)
    ensures
        final(table)@ == widened(old(table)@, registry.count()),
{
    let width = registry.len();
    let ghost start = table@;
    while table.inner.len() < width
        invariant
            width == registry.count(),
            start.len() <= table@.len(),
            start.len() < width ==> table@.len() <= width,
            start.len() >= width ==> table@ == start,
            table@.subrange(0, start.len() as int) == start,
            forall|j: int| start.len() <= j < table@.len() ==> table@[j] is None,
        decreases width - table.inner@.len(),
    {
        let ghost before = table@;
        table.inner.push(None);
        assert(table@ =~= before.push(None));
        assert(table@.subrange(0, start.len() as int) =~= start);
    }
    proof {
        if start.len() >= width {
            assert(table@ =~= start);
        } else {
            assert(table@ =~= widened(start, registry.count()));
        }
    }
}

} // verus!
