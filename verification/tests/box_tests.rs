use copyless::{BoxAllocation, BoxHelper};
use std::cell::Cell;
use std::rc::Rc;

struct Counted {
    drops: Rc<Cell<u32>>,
    payload: u64,
}

impl Drop for Counted {
    fn drop(&mut self) {
        self.drops.set(self.drops.get() + 1);
    }
}

#[test]
fn initialized_box_holds_the_value() {
    let boxed: Box<u64> = <Box<u64> as BoxHelper<u64>>::allocate().init(42);
    assert_eq!(*boxed, 42);
}

#[test]
fn initialized_box_holds_a_large_value() {
    let boxed = <Box<[u32; 256]>>::allocate().init([9; 256]);
    assert_eq!(boxed.len(), 256);
    assert!(boxed.iter().all(|element| *element == 9));
}

#[test]
fn initialized_box_owns_a_heap_value() {
    let allocation: BoxAllocation<String> = Box::allocate();
    let boxed = allocation.init(String::from("in place"));
    assert_eq!(boxed.as_str(), "in place");
    let moved: String = *boxed;
    assert_eq!(moved, "in place");
}

#[test]
fn value_is_dropped_once_with_its_box() {
    let drops = Rc::new(Cell::new(0));
    let boxed = <Box<Counted>>::allocate().init(Counted { drops: drops.clone(), payload: 5 });
    assert_eq!(boxed.payload, 5);
    assert_eq!(drops.get(), 0);
    drop(boxed);
    assert_eq!(drops.get(), 1);
}

#[test]
fn dropped_allocation_runs_no_destructor() {
    let drops = Rc::new(Cell::new(0));
    {
        let _allocation: BoxAllocation<Counted> = Box::allocate();
    }
    assert_eq!(drops.get(), 0);
    let value = Counted { drops: drops.clone(), payload: 1 };
    {
        let _allocation: BoxAllocation<Counted> = Box::allocate();
    }
    assert_eq!(drops.get(), 0);
    drop(value);
    assert_eq!(drops.get(), 1);
}

#[test]
fn zero_sized_value_can_be_boxed() {
    let boxed: Box<()> = <Box<()>>::allocate().init(());
    assert_eq!(*boxed, ());
    {
        let _allocation: BoxAllocation<()> = Box::allocate();
    }
    let marker: Box<[u8; 0]> = <Box<[u8; 0]>>::allocate().init([]);
    assert_eq!(marker.len(), 0);
}
