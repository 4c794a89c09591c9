//! Laws relating scoping, capture and access.
use vstd::prelude::*;

use crate::error::InheritableAccessError;
use crate::table::{access, captured, scoped};

verus! {

/// Inside a scope that binds `value` to `key`, reading `key` gives `value`;
/// every other registered slot reads as it did in the enclosing table, or as
/// bound to nothing there. The enclosing table itself is not touched by the
/// scope, so once the scope ends reading gives what it gave before.
pub proof fn lemma_scope_binds_and_shadows<T>(
    active: Option<Seq<Option<T>>>,
    width: nat,
    key: nat,
    value: T,
    other: nat,
)
    requires
        key < width,
        other < width,
        other != key,
    ensures
        access(Some(scoped(active, width, key, value)), key) == Ok::<T, InheritableAccessError>(
            value,
        ),
        access(Some(scoped(active, width, key, value)), other) == match access(active, other) {
            Ok(v) => Ok(v),
            Err(_) => Err(InheritableAccessError::NotInTable),
        },
{
}

/// A unit of work captured where `active` is the active table sees the same
/// bindings as its spawner, whatever runs it and whenever; in particular it
/// sees the value of a scope it was captured in, and capturing again inside
/// it captures the same table.
pub proof fn lemma_capture_inherits<T>(
    active: Seq<Option<T>>,
    width: nat,
    key: nat,
    value: T,
    other: nat,
)
    requires
        key < width,
    ensures
        access(Some(captured(Some(active))), other) == access(Some(active), other),
        captured(Some(captured(Some(active)))) == active,
        access(Some(captured(Some(scoped(Some(active), width, key, value)))), key) == Ok::<
            T,
            InheritableAccessError,
        >(value),
{
}

/// A unit of work spawned without being captured starts with no table, so
/// reading any slot there fails with `NotInTokio`, whatever its spawner had
/// bound; one captured with no table active sees no binding either.
pub proof fn lemma_uncaptured_sees_nothing<T>(key: nat)
    ensures
        access(None::<Seq<Option<T>>>, key) == Err::<T, InheritableAccessError>(
            InheritableAccessError::NotInTokio,
        ),
        access(Some(captured(None::<Seq<Option<T>>>)), key) == Err::<T, InheritableAccessError>(
            InheritableAccessError::TableEmpty,
        ),
{
}

/// Two distinct slots bound in nested scopes are both readable in the inner one.
pub proof fn lemma_nested_scopes_keep_both<T>(
    active: Option<Seq<Option<T>>>,
    width: nat,
    outer: nat,
    outer_value: T,
    inner: nat,
    inner_value: T,
)
    requires
        outer < width,
        inner < width,
        outer != inner,
    ensures
        access(
            Some(scoped(Some(scoped(active, width, outer, outer_value)), width, inner, inner_value)),
            outer,
        ) == Ok::<T, InheritableAccessError>(outer_value),
        access(
            Some(scoped(Some(scoped(active, width, outer, outer_value)), width, inner, inner_value)),
            inner,
        ) == Ok::<T, InheritableAccessError>(inner_value),
{
}

/// With no table active, reading fails with `NotInTokio`; in a scope that
/// binds some other registered slot only, it fails with `NotInTable`.
pub proof fn lemma_unbound_kinds<T>(width: nat, bound: nat, value: T, key: nat)
    requires
        bound < width,
        key < width,
        key != bound,
    ensures
        access(None::<Seq<Option<T>>>, key) == Err::<T, InheritableAccessError>(
            InheritableAccessError::NotInTokio,
        ),
        access(Some(scoped(None, width, bound, value)), key) == Err::<T, InheritableAccessError>(
            InheritableAccessError::NotInTable,
        ),
{
}

/// Two siblings captured from one table: a scope entered by one of them
/// leaves every reading of the other as it was in the table they came from.
pub proof fn lemma_siblings_independent<T>(
    parent: Seq<Option<T>>,
    width: nat,
    key: nat,
    value: T,
    other: nat,
)
    requires
        key < width,
    ensures
        ({
            let first = captured(Some(parent));
            let second = captured(Some(parent));
            let first_scoped = scoped(Some(first), width, key, value);
            &&& access(Some(first_scoped), key) == Ok::<T, InheritableAccessError>(value)
            &&& access(Some(second), other) == access(Some(parent), other)
        }),
{
}

} // verus!
