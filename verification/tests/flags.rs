use dispatch::blk::ALL_BLOCK_FLAGS;
use dispatch::BlockFlags;

#[test]
fn flag_values() {
    assert_eq!(BlockFlags::barrier().bits(), 0x1);
    assert_eq!(BlockFlags::detached().bits(), 0x2);
    assert_eq!(BlockFlags::assign_current().bits(), 0x4);
    assert_eq!(BlockFlags::no_qos_class().bits(), 0x8);
    assert_eq!(BlockFlags::inherit_qos_class().bits(), 0x10);
    assert_eq!(BlockFlags::enforce_qos_class().bits(), 0x20);
    assert_eq!(BlockFlags::all().bits(), ALL_BLOCK_FLAGS);
    assert_eq!(BlockFlags::empty().bits(), 0);
}

#[test]
fn from_bits_rejects_unknown_bits() {
    assert_eq!(BlockFlags::from_bits(0x5).map(|f| f.bits()), Some(0x5));
    assert_eq!(BlockFlags::from_bits(0x3f).map(|f| f.bits()), Some(0x3f));
    assert!(BlockFlags::from_bits(0x40).is_none());
    assert!(BlockFlags::from_bits(0x41).is_none());
    assert_eq!(BlockFlags::from_bits_truncate(0xff).bits(), 0x3f);
    assert_eq!(BlockFlags::from_bits_truncate(0x41).bits(), 0x1);
}

#[test]
fn insert_contains_remove() {
    let mut f = BlockFlags::empty();
    assert!(f.is_empty());
    f.insert(BlockFlags::barrier());
    assert!(f.contains(&BlockFlags::barrier()));
    assert!(!f.contains(&BlockFlags::detached()));
    f.insert(BlockFlags::detached());
    assert_eq!(f.bits(), 0x3);
    f.remove(BlockFlags::barrier());
    assert!(!f.intersects(&BlockFlags::barrier()));
    assert_eq!(f.bits(), 0x2);
    f.set(BlockFlags::no_qos_class(), true);
    assert_eq!(f.bits(), 0xa);
    f.set(BlockFlags::detached(), false);
    assert_eq!(f.bits(), 0x8);
}

#[test]
fn toggle_twice_is_identity() {
    let mut f = BlockFlags::assign_current();
    f.toggle(BlockFlags::barrier().union(BlockFlags::assign_current()));
    assert_eq!(f.bits(), 0x1);
    f.toggle(BlockFlags::barrier().union(BlockFlags::assign_current()));
    assert_eq!(f, BlockFlags::assign_current());
}

#[test]
fn set_operations() {
    let a = BlockFlags::barrier().union(BlockFlags::detached());
    let b = BlockFlags::detached().union(BlockFlags::no_qos_class());
    assert_eq!(a.intersection(b).bits(), 0x2);
    assert_eq!(a.union(b).bits(), 0xb);
    assert_eq!(a.difference(b).bits(), 0x1);
    assert_eq!(a.symmetric_difference(b).bits(), 0x9);
    assert_eq!(a.complement().bits(), 0x3c);
    assert_eq!(a.complement().complement(), a);
    assert!(BlockFlags::all().is_all());
    assert!(!a.is_all());
    assert!(a.contains(&BlockFlags::empty()));
}

#[test]
fn difference_is_intersection_with_complement() {
    let a = BlockFlags::barrier().union(BlockFlags::enforce_qos_class());
    for bits in 0u64..64 {
        let b = BlockFlags::from_bits(bits).unwrap();
        assert_eq!(a.difference(b), a.intersection(b.complement()));
    }
}
