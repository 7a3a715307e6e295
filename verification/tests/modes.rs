use cardwire_daemon::modes::{InvalidMode, Modes};

#[test]
fn test_mode_numbers() {
    let n: u32 = Modes::Integrated.into();
    assert_eq!(n, 0);
    let n: u32 = Modes::Hybrid.into();
    assert_eq!(n, 1);
    let n: u32 = Modes::Manual.into();
    assert_eq!(n, 2);
    let n: u32 = Modes::Smart.into();
    assert_eq!(n, 3);
}

#[test]
fn test_mode_number_roundtrip() {
    for m in [Modes::Integrated, Modes::Hybrid, Modes::Manual, Modes::Smart] {
        let n: u32 = m.into();
        assert_eq!(Modes::try_from(n), Ok(m));
    }
}

#[test]
fn test_invalid_mode_number() {
    assert_eq!(Modes::try_from(4u32), Err(InvalidMode { value: 4 }));
    let err = Modes::try_from(4294967295u32).unwrap_err();
    assert_eq!(err.message(), "invalid mode value: 4294967295");
}

#[test]
fn test_mode_names() {
    assert_eq!(Modes::Integrated.name(), "integrated");
    assert_eq!(Modes::Hybrid.name(), "hybrid");
    assert_eq!(Modes::Manual.name(), "manual");
    assert_eq!(Modes::Smart.name(), "smart");
    for m in [Modes::Integrated, Modes::Hybrid, Modes::Manual, Modes::Smart] {
        assert_eq!(Modes::from_name(m.name()), Some(m));
    }
}

#[test]
fn test_unknown_mode_names() {
    assert_eq!(Modes::from_name("Smart"), None);
    assert_eq!(Modes::from_name(""), None);
    assert_eq!(Modes::from_name("smart "), None);
    assert_eq!(Modes::from_name("hybri"), None);
}
