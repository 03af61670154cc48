use jscore::bytecode::virtualregister::VirtualRegister;

#[test]
fn negative_indices_are_locals() {
    for index in [-1, -2, -100, i32::MIN] {
        let r = VirtualRegister::new(index);
        assert!(r.is_local());
        assert!(!r.is_argument());
        assert_eq!(r.to_i32(), index);
    }
}

#[test]
fn non_negative_indices_are_arguments() {
    for index in [0, 1, 7, i32::MAX] {
        let r = VirtualRegister::new(index);
        assert!(r.is_argument());
        assert!(!r.is_local());
        assert_eq!(r.to_i32(), index);
    }
}

#[test]
fn the_sentinel_is_told_apart() {
    assert_eq!(VirtualRegister::INVALID_VIRTUAL_REGISTER, 0x3fffffff);
    let none = VirtualRegister::invalid();
    assert!(!none.is_valid());
    assert_eq!(none.to_i32(), 0x3fffffff);
    assert!(VirtualRegister::new(0).is_valid());
    assert!(VirtualRegister::new(-1).is_valid());
    assert!(VirtualRegister::new(0x3ffffffe).is_valid());
    assert!(!VirtualRegister::new(0x3fffffff).is_valid());
    assert_ne!(VirtualRegister::new(3), none);
}

#[test]
fn registers_compare_by_index() {
    assert_eq!(VirtualRegister::new(4), VirtualRegister::new(4));
    assert_ne!(VirtualRegister::new(4), VirtualRegister::new(-4));
}
