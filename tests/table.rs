use tokio_inherit_task_local::{
    maybe_init_task_locals, new_task_local_table, InheritableAccessError, InheritableLocalKey,
    SlotRegistry, TaskLocalInheritableTable,
};

#[derive(Debug, Clone, PartialEq)]
enum Val {
    Num(u32),
    Text(String),
}

fn num(v: &Val) -> u32 {
    match v {
        Val::Num(n) => *n,
        Val::Text(_) => panic!("slot holds text"),
    }
}

fn text(v: &Val) -> String {
    match v {
        Val::Text(s) => s.clone(),
        Val::Num(_) => panic!("slot holds a number"),
    }
}

fn copy(v: &u32) -> u32 {
    *v
}

fn runtime() -> tokio::runtime::Runtime {
    tokio::runtime::Builder::new_multi_thread().enable_all().build().unwrap()
}

#[test]
fn registry_issues_dense_identifiers() {
    let mut registry = SlotRegistry::new();
    assert_eq!(registry.len(), 0);
    assert_eq!(registry.register(), 0);
    let a: InheritableLocalKey<u32> = InheritableLocalKey::_new(&mut registry);
    let b: InheritableLocalKey<String> = InheritableLocalKey::_new(&mut registry);
    assert_eq!(a.key(), 1);
    assert_eq!(b.key(), 2);
    assert_eq!(registry.len(), 3);
}

#[test]
fn fresh_table_has_one_empty_cell_per_slot() {
    let mut registry = SlotRegistry::new();
    registry.register();
    registry.register();
    registry.register();
    let t: TaskLocalInheritableTable<u32> = new_task_local_table(&registry);
    assert_eq!(t.len(), 3);
    assert!(!t.is_empty());
    assert_eq!(t.cell(0), None);
    assert_eq!(t.cell(2), None);
    assert_eq!(t.cell(3), None);
}

#[test]
fn widening_keeps_cells_and_adds_empty_ones() {
    let mut registry = SlotRegistry::new();
    let a: InheritableLocalKey<u32> = InheritableLocalKey::_new(&mut registry);
    let mut t = a.scope_table(&registry, None, 7);
    assert_eq!(t.len(), 1);
    registry.register();
    registry.register();
    maybe_init_task_locals(&mut t, &registry);
    assert_eq!(t.len(), 3);
    assert_eq!(t.cell(0), Some(&7));
    assert_eq!(t.cell(1), None);
    assert_eq!(t.cell(2), None);
    maybe_init_task_locals(&mut t, &registry);
    assert_eq!(t.len(), 3);
    assert_eq!(t.cell(0), Some(&7));
}

#[test]
fn slot_registered_after_table_was_built() {
    let mut registry = SlotRegistry::new();
    let a: InheritableLocalKey<u32> = InheritableLocalKey::_new(&mut registry);
    let outer = a.scope_table(&registry, None, 1);
    let late: InheritableLocalKey<u32> = InheritableLocalKey::_new(&mut registry);
    assert_eq!(late.try_with(Some(&outer), copy), Err(InheritableAccessError::InvalidKey));
    let inner = late.scope_table(&registry, Some(&outer), 2);
    assert_eq!(inner.len(), 2);
    assert_eq!(a.get(Some(&inner)), 1);
    assert_eq!(late.get(Some(&inner)), 2);
    assert_eq!(outer.len(), 1);
}

#[test]
fn each_error_kind() {
    let mut registry = SlotRegistry::new();
    let a: InheritableLocalKey<u32> = InheritableLocalKey::_new(&mut registry);
    let b: InheritableLocalKey<u32> = InheritableLocalKey::_new(&mut registry);
    assert_eq!(a.try_with(None, copy), Err(InheritableAccessError::NotInTokio));
    let empty = TaskLocalInheritableTable::inherit(None);
    assert!(empty.is_empty());
    assert_eq!(a.try_with(Some(&empty), copy), Err(InheritableAccessError::TableEmpty));
    let t = a.scope_table(&registry, None, 3);
    assert_eq!(b.try_with(Some(&t), copy), Err(InheritableAccessError::NotInTable));
    assert_eq!(a.try_with(Some(&t), copy), Ok(3));
    let c: InheritableLocalKey<u32> = InheritableLocalKey::_new(&mut registry);
    assert_eq!(c.try_with(Some(&t), copy), Err(InheritableAccessError::InvalidKey));
}

#[test]
fn inner_scope_shadows_and_outer_reappears() {
    let mut registry = SlotRegistry::new();
    let a: InheritableLocalKey<u32> = InheritableLocalKey::_new(&mut registry);
    let b: InheritableLocalKey<u32> = InheritableLocalKey::_new(&mut registry);
    let registry = &registry;
    let seen = a.sync_scope(registry, None, 1, |outer| {
        let inner = a.sync_scope(registry, Some(outer), 2, |t| a.get(Some(t)));
        let other = b.try_with(Some(outer), copy);
        (inner, a.get(Some(outer)), other)
    });
    assert_eq!(seen, (2, 1, Err(InheritableAccessError::NotInTable)));
    assert_eq!(a.try_with(None, copy), Err(InheritableAccessError::NotInTokio));
}

#[test]
fn two_slots_in_nested_scopes() {
    let mut registry = SlotRegistry::new();
    let s1: InheritableLocalKey<Val> = InheritableLocalKey::_new(&mut registry);
    let s2: InheritableLocalKey<Val> = InheritableLocalKey::_new(&mut registry);
    let outer = s1.scope_table(&registry, None, Val::Num(1));
    let inner = s2.scope_table(&registry, Some(&outer), Val::Text(String::from("x")));
    assert_eq!(s1.with(Some(&inner), num), 1);
    assert_eq!(s2.with(Some(&inner), text), "x");
}

#[test]
fn captured_table_shares_values() {
    let mut registry = SlotRegistry::new();
    let a: InheritableLocalKey<String> = InheritableLocalKey::_new(&mut registry);
    let t = a.scope_table(&registry, None, String::from("shared"));
    let c = TaskLocalInheritableTable::inherit(Some(&t));
    assert_eq!(c.len(), t.len());
    assert!(std::ptr::eq(c.cell(0).unwrap(), t.cell(0).unwrap()));
    let d = t.duplicate();
    assert!(std::ptr::eq(d.cell(0).unwrap(), t.cell(0).unwrap()));
}

#[test]
fn siblings_do_not_see_each_others_scopes() {
    let mut registry = SlotRegistry::new();
    let a: InheritableLocalKey<u32> = InheritableLocalKey::_new(&mut registry);
    let b: InheritableLocalKey<u32> = InheritableLocalKey::_new(&mut registry);
    let parent = a.scope_table(&registry, None, 1);
    let first = TaskLocalInheritableTable::inherit(Some(&parent));
    let second = TaskLocalInheritableTable::inherit(Some(&parent));
    let first_a = a.scope_table(&registry, Some(&first), 10);
    let first_b = b.scope_table(&registry, Some(&first_a), 20);
    assert_eq!(a.get(Some(&first_b)), 10);
    assert_eq!(b.get(Some(&first_b)), 20);
    assert_eq!(a.get(Some(&second)), 1);
    assert_eq!(b.try_with(Some(&second), copy), Err(InheritableAccessError::NotInTable));
    assert_eq!(a.get(Some(&parent)), 1);
}

struct NotClone(u32);

#[test]
fn values_need_not_be_clone() {
    let mut registry = SlotRegistry::new();
    let a: InheritableLocalKey<NotClone> = InheritableLocalKey::_new(&mut registry);
    let t = a.scope_table(&registry, None, NotClone(9));
    let c = TaskLocalInheritableTable::inherit(Some(&t));
    assert_eq!(a.with(Some(&c), |v| v.0), 9);
}

#[test]
fn count_and_label_across_spawns() {
    let mut registry = SlotRegistry::new();
    let count: &'static InheritableLocalKey<Val> =
        Box::leak(Box::new(InheritableLocalKey::_new(&mut registry)));
    let label: &'static InheritableLocalKey<Val> =
        Box::leak(Box::new(InheritableLocalKey::_new(&mut registry)));
    let registry: &'static SlotRegistry = Box::leak(Box::new(registry));
    let top = count.scope_table(registry, None, Val::Num(5));
    let (child, grandchild, sibling) = runtime().block_on(async move {
        let captured = TaskLocalInheritableTable::inherit(Some(&top));
        let child = tokio::spawn(async move {
            let seen = count.with(Some(&captured), num);
            let labelled = label.scope_table(registry, Some(&captured), Val::Text(String::from("x")));
            let inherited = TaskLocalInheritableTable::inherit(Some(&labelled));
            let grandchild = tokio::spawn(async move {
                (count.with(Some(&inherited), num), label.with(Some(&inherited), text))
            })
            .await
            .unwrap();
            (seen, grandchild)
        })
        .await
        .unwrap();
        let sibling = tokio::spawn(async move { count.try_with(None, num) }).await.unwrap();
        (child.0, child.1, sibling)
    });
    assert_eq!(child, 5);
    assert_eq!(grandchild, (5, String::from("x")));
    assert_eq!(sibling, Err(InheritableAccessError::NotInTokio));
}
