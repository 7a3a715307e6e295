use cardwire_daemon::config::CardwireConfig;
use cardwire_daemon::interface::InterfaceError;
use cardwire_daemon::memory::ConfigMemory;
use cardwire_daemon::modes::Modes;

#[test]
fn test_config_memory_build_from_default_config() {
    let config = CardwireConfig::default();
    let memory = ConfigMemory::build(config);
    assert!(memory.auto_apply_gpu_state());
    assert!(!memory.experimental_nvidia_block());
    assert!(!memory.battery_auto_switch());
    assert!(!memory.external_display_auto_switch());
}

#[test]
fn test_config_memory_build_from_custom_config() {
    let config = CardwireConfig::new(false, true, true, Modes::Smart, true, vec![]);
    let memory = ConfigMemory::build(config);
    assert!(!memory.auto_apply_gpu_state());
    assert!(memory.experimental_nvidia_block());
    assert!(memory.battery_auto_switch());
    let mode_val = memory.battery_auto_switch_mode();
    assert_eq!(Modes::try_from(mode_val).unwrap(), Modes::Smart);
    assert!(memory.external_display_auto_switch());
}

#[test]
fn test_config_memory_atomic_store_and_load() {
    let config = CardwireConfig::default();
    let mut memory = ConfigMemory::build(config);
    memory.set_auto_apply_gpu_state(false);
    assert!(!memory.auto_apply_gpu_state());
    memory.set_external_display_auto_switch(true);
    assert!(memory.external_display_auto_switch());
}

#[test]
fn test_config_memory_other_setters() {
    let mut memory = ConfigMemory::build(CardwireConfig::default());
    memory.set_experimental_nvidia_block(true);
    memory.set_battery_auto_switch(true);
    assert!(memory.experimental_nvidia_block());
    assert!(memory.battery_auto_switch());
    assert!(memory.auto_apply_gpu_state());
}

#[test]
fn test_config_memory_set_valid_mode() {
    let mut memory = ConfigMemory::build(CardwireConfig::default());
    assert_eq!(memory.battery_auto_switch_mode(), 1);
    assert!(memory.set_battery_auto_switch_mode(3).is_ok());
    assert_eq!(memory.battery_auto_switch_mode(), 3);
    assert_eq!(memory.to_config().battery_auto_switch_mode(), Modes::Smart);
}

#[test]
fn test_config_memory_set_invalid_mode_is_refused() {
    let mut memory = ConfigMemory::build(CardwireConfig::default());
    match memory.set_battery_auto_switch_mode(7) {
        Err(InterfaceError::InvalidArgs(msg)) => assert_eq!(msg, "invalid mode value: 7"),
        other => panic!("unexpected reply {:?}", other),
    }
    assert_eq!(memory.battery_auto_switch_mode(), 1);
    assert_eq!(memory.to_config().battery_auto_switch_mode(), Modes::Hybrid);
}

#[test]
fn test_config_memory_to_config_roundtrip() {
    let config = CardwireConfig::new(
        false,
        true,
        false,
        Modes::Integrated,
        true,
        vec!["prio-rpc-libvir".to_string(), "qemu-system-x86".to_string()],
    );
    let memory = ConfigMemory::build(config);
    let saved = memory.to_config();
    assert!(!saved.auto_apply_gpu_state());
    assert!(saved.experimental_nvidia_block());
    assert!(!saved.battery_auto_switch());
    assert_eq!(saved.battery_auto_switch_mode(), Modes::Integrated);
    assert!(saved.external_display_auto_switch());
    assert_eq!(
        saved.allowed_programs(),
        &["prio-rpc-libvir".to_string(), "qemu-system-x86".to_string()]
    );
    assert_eq!(memory.allowed_programs(), saved.allowed_programs());
}
