use breakpoints::Breakpoint;
use breakpoints::IdAllocator;

#[test]
fn ids_are_distinct_and_increasing() {
    let mut ids = IdAllocator::new();
    let a = ids.next();
    let b = ids.next();
    let c = ids.next();
    assert_eq!(a.value(), 0);
    assert_eq!(b.value(), 1);
    assert_eq!(c.value(), 2);
    assert!(a.value() < b.value() && b.value() < c.value());
    assert!(a != b && b != c && a != c);
    assert!(!ids.exhausted());
}

#[test]
fn same_address_distinct_identity() {
    let mut ids = IdAllocator::new();
    let b1: Breakpoint<u32> = Breakpoint::without_command(&mut ids, 0x4010, false);
    let b2: Breakpoint<u32> = Breakpoint::without_command(&mut ids, 0x4010, false);
    assert_eq!(b1.addr(), b2.addr());
    assert!(b1.id() != b2.id());
    assert!(b1 != b2);
    assert!(b1 == b1);
    assert!(b2 == b2);
}
