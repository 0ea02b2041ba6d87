use dispatch::QosClass;

const ALL: [QosClass; 6] = [
    QosClass::UserInteractive,
    QosClass::UserInitiated,
    QosClass::Default,
    QosClass::Utility,
    QosClass::Background,
    QosClass::Unspecified,
];

#[test]
fn raw_values() {
    assert_eq!(QosClass::UserInteractive.raw(), 0x21);
    assert_eq!(QosClass::UserInitiated.raw(), 0x19);
    assert_eq!(QosClass::Default.raw(), 0x15);
    assert_eq!(QosClass::Utility.raw(), 0x11);
    assert_eq!(QosClass::Background.raw(), 0x09);
    assert_eq!(QosClass::Unspecified.raw(), 0x00);
}

#[test]
fn raw_round_trip() {
    for q in ALL {
        assert!(QosClass::is_known(q.raw()));
        assert_eq!(QosClass::from_raw(q.raw()), q);
    }
    assert!(!QosClass::is_known(0x22));
    assert!(!QosClass::is_known(1));
}

#[test]
fn default_class() {
    assert_eq!(QosClass::default(), QosClass::Default);
}

#[test]
fn ordered_by_raw_value() {
    assert!(QosClass::Unspecified < QosClass::Background);
    assert!(QosClass::Background < QosClass::Utility);
    assert!(QosClass::Utility < QosClass::Default);
    assert!(QosClass::Default < QosClass::UserInitiated);
    assert!(QosClass::UserInitiated < QosClass::UserInteractive);
    for a in ALL {
        for b in ALL {
            assert_eq!(a.partial_cmp(&b), a.raw().partial_cmp(&b.raw()));
        }
    }
}
