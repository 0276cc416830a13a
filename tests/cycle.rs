use rtrk::cycle::Cycle;

#[test]
fn deref_test() {
    let c = Cycle::new(1, 2);
    assert_eq!(*c, 1);
}

#[test]
fn arithmetic_test() {
    let c = Cycle::new(1, 2);
    assert_eq!(*(c + 0), 1);
    assert_eq!(*(c + 1), 0);
    assert_eq!(*(c + 2), 1);
    assert_eq!(*(c - 1), 0);
    assert_eq!(*(c - 2), 1);

    let c = Cycle::new(0, 5);
    assert_eq!(*(c + 0), 0);
    assert_eq!(*(c + 1), 1);
    assert_eq!(*(c + 4), 4);
    assert_eq!(*(c + 5), 0);
}

#[test]
fn arithmetic_assign_test() {
    let mut c = Cycle::new(0, 4);
    c += 1;
    assert_eq!(*c, 1);
    c += 2;
    assert_eq!(*c, 3);
    c += 1;
    assert_eq!(*c, 0);

    let mut c = Cycle::new(1, 4);
    c -= 1;
    assert_eq!(*c, 0);
    c -= 1;
    assert_eq!(*c, 3);
    c -= 2;
    assert_eq!(*c, 1);
}

#[test]
fn assign_test() {
    let mut c = Cycle::new(1, 4);
    assert_eq!(*c, 1);
    c._set(2);
    assert_eq!(*c, 2);
    c._set(7);
    assert_eq!(*c, 3);
}

#[test]
fn cycle_wraps_far_past_either_end() {
    let c = Cycle::new(3, 0x100);
    assert_eq!(*(c + usize::MAX), (3 + (usize::MAX % 0x100)) % 0x100);
    assert_eq!(*(c - 4), 0xFF);
    assert_eq!(*(c - 0x103), 0);
    // a position is kept as given until it moves
    let c = Cycle::new(9, 4);
    assert_eq!(*c, 9);
    assert_eq!(*(c + 0), 1);
    assert_eq!(*(c - 10), 3);
    let mut c = Cycle::new(5, 2);
    assert_eq!(*c, 5);
    c += 0;
    assert_eq!(*c, 1);
    let mut empty = Cycle::new(3, 0);
    empty += 1;
    empty -= 7;
    assert_eq!(*empty, 3);
}
