use std::cell::{Cell, RefCell};
use std::rc::Rc;
use svelte_store::Readable;

#[test]
fn read_returns_the_value_last_installed() {
    let mut cell: Readable<u32, u32, fn(u32), ()> = Readable::new_mapped(1, |v: &u32| *v);
    assert_eq!(*cell, 1);
    cell.set(2);
    assert_eq!(*cell, 2);
    cell.set_with(|v: &mut u32| *v *= 10);
    assert_eq!(*cell, 20);
    cell.set(3);
    assert_eq!(*cell, 3);
    assert_eq!(*cell, 3);
}

#[test]
fn each_mutation_of_a_live_cell_publishes_once() {
    let log: Rc<RefCell<Vec<String>>> = Rc::new(RefCell::new(Vec::new()));
    let sink = log.clone();
    let mut cell: Readable<u8, String, _, ()> =
        Readable::new_mapped(1, |v: &u8| format!("<{}>", v));
    assert!(cell.start(move |u: String| sink.borrow_mut().push(u)));
    assert_eq!(log.borrow().len(), 1);

    cell.set(2);
    assert_eq!(log.borrow().len(), 2);
    assert_eq!(log.borrow()[1], "<2>");

    cell.set(2);
    assert_eq!(log.borrow().len(), 3);
    assert_eq!(log.borrow()[2], "<2>");

    cell.set_with(|v: &mut u8| *v = 9);
    assert_eq!(log.borrow().len(), 4);
    assert_eq!(*log.borrow(), vec!["<1>", "<2>", "<2>", "<9>"]);
}

#[test]
fn set_with_returns_what_the_closure_returns() {
    let log: Rc<RefCell<Vec<usize>>> = Rc::new(RefCell::new(Vec::new()));
    let sink = log.clone();
    let mut cell: Readable<Vec<u8>, usize, _, ()> =
        Readable::new_mapped(vec![1, 2], |v: &Vec<u8>| v.len());
    assert!(cell.start(move |u: usize| sink.borrow_mut().push(u)));

    let popped = cell.set_with(|v: &mut Vec<u8>| {
        v.push(3);
        v.push(4);
        v.remove(0)
    });
    assert_eq!(popped, 1);
    assert_eq!(*cell, vec![2, 3, 4]);
    assert_eq!(*log.borrow(), vec![2, 3]);
}

#[test]
fn set_with_publishes_even_when_nothing_changed() {
    let log: Rc<RefCell<Vec<i64>>> = Rc::new(RefCell::new(Vec::new()));
    let sink = log.clone();
    let mut cell: Readable<i64, i64, _, ()> = Readable::new_mapped(-4, |v: &i64| *v);
    assert!(cell.start(move |u: i64| sink.borrow_mut().push(u)));

    let seen = cell.set_with(|v: &mut i64| *v);
    assert_eq!(seen, -4);
    assert_eq!(*cell, -4);
    assert_eq!(*log.borrow(), vec![-4, -4]);
}

#[test]
fn projection_runs_once_per_publication_and_never_for_a_dormant_cell() {
    let calls = Rc::new(Cell::new(0u32));
    let counter = calls.clone();
    let log: Rc<RefCell<Vec<u32>>> = Rc::new(RefCell::new(Vec::new()));
    let sink = log.clone();
    let mut cell: Readable<u32, u32, _, ()> = Readable::new_mapped(0, move |v: &u32| {
        counter.set(counter.get() + 1);
        *v + 100
    });

    cell.set(1);
    cell.set_with(|v: &mut u32| *v += 1);
    assert_eq!(calls.get(), 0);

    assert!(cell.start(move |u: u32| sink.borrow_mut().push(u)));
    assert_eq!(calls.get(), 1);
    cell.set(7);
    assert_eq!(calls.get(), 2);
    cell.set_with(|v: &mut u32| *v += 1);
    assert_eq!(calls.get(), 3);
    assert_eq!(*log.borrow(), vec![102, 107, 108]);
}

#[test]
fn projection_that_keeps_state_is_called_in_order() {
    let log: Rc<RefCell<Vec<(u32, char)>>> = Rc::new(RefCell::new(Vec::new()));
    let sink = log.clone();
    let mut serial = 0u32;
    let mut cell: Readable<char, (u32, char), _, ()> =
        Readable::new_mapped('a', move |v: &char| {
            serial += 1;
            (serial, *v)
        });
    assert!(cell.start(move |u: (u32, char)| sink.borrow_mut().push(u)));
    cell.set('b');
    cell.set('c');
    assert_eq!(*log.borrow(), vec![(1, 'a'), (2, 'b'), (3, 'c')]);
}

#[test]
fn value_is_committed_before_it_is_published() {
    let log: Rc<RefCell<Vec<u16>>> = Rc::new(RefCell::new(Vec::new()));
    let sink = log.clone();
    let mut cell: Readable<u16, u16, _, ()> = Readable::new_mapped(10, |v: &u16| *v);
    assert!(cell.start(move |u: u16| sink.borrow_mut().push(u)));
    cell.set_with(|v: &mut u16| {
        *v = 11;
        *v = 12;
        *v = 13;
    });
    assert_eq!(*log.borrow(), vec![10, 13]);
}
