use std::any::TypeId;
use std::cell::Cell;
use std::rc::Rc;

use hermes::dispatch::DispatchTable;

struct EventA;
struct EventB;

#[test]
fn handlers_are_found_only_under_their_own_type() {
    let mut table: DispatchTable<u32> = DispatchTable::new();
    table.register(TypeId::of::<EventA>(), 1);
    table.register(TypeId::of::<EventB>(), 2);
    table.register(TypeId::of::<EventA>(), 3);
    let a: Vec<u32> = table.handlers_for(&TypeId::of::<EventA>()).into_iter().copied().collect();
    let b: Vec<u32> = table.handlers_for(&TypeId::of::<EventB>()).into_iter().copied().collect();
    assert_eq!(a, vec![1, 3]);
    assert_eq!(b, vec![2]);
    assert_eq!(table.len(), 3);
}

#[test]
fn type_without_handlers_has_none() {
    let mut table: DispatchTable<u32> = DispatchTable::new();
    table.register(TypeId::of::<EventA>(), 1);
    assert!(table.handlers_for(&TypeId::of::<EventB>()).is_empty());
    assert!(table.handlers_for(&TypeId::of::<String>()).is_empty());
}

#[test]
fn publishing_runs_matching_handlers_in_order_before_returning() {
    let counter = Rc::new(Cell::new(0u32));
    let order = Rc::new(std::cell::RefCell::new(Vec::new()));
    let mut table: DispatchTable<Box<dyn Fn()>> = DispatchTable::new();
    let (c, o) = (counter.clone(), order.clone());
    table.register(TypeId::of::<EventA>(), Box::new(move || {
        c.set(c.get() + 1);
        o.borrow_mut().push("first");
    }));
    let o = order.clone();
    table.register(TypeId::of::<EventB>(), Box::new(move || o.borrow_mut().push("other")));
    let (c, o) = (counter.clone(), order.clone());
    table.register(TypeId::of::<EventA>(), Box::new(move || {
        c.set(c.get() + 1);
        o.borrow_mut().push("second");
    }));
    for handler in table.handlers_for(&TypeId::of::<EventA>()) {
        handler();
    }
    assert_eq!(counter.get(), 2);
    assert_eq!(*order.borrow(), vec!["first", "second"]);
}
