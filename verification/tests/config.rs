use cardwire_daemon::config::{CardwireConfig, ConfigFields};
use cardwire_daemon::modes::Modes;

fn no_fields() -> ConfigFields {
    ConfigFields {
        auto_apply_gpu_state: None,
        experimental_nvidia_block: None,
        battery_auto_switch: None,
        battery_auto_switch_mode: None,
        external_display_auto_switch: None,
        allowed_programs: None,
    }
}

#[test]
fn test_cardwire_config_default_values() {
    let config = CardwireConfig::default();
    assert!(config.auto_apply_gpu_state());
    assert!(!config.experimental_nvidia_block());
    assert!(!config.battery_auto_switch());
    assert_eq!(config.battery_auto_switch_mode(), Modes::Hybrid);
    assert!(!config.external_display_auto_switch());
    assert!(config.allowed_programs().is_empty());
}

#[test]
fn test_cardwire_config_build_values() {
    let config = CardwireConfig::new(
        false,
        true,
        true,
        Modes::Smart,
        true,
        vec!["myprog".to_string()],
    );
    assert!(!config.auto_apply_gpu_state());
    assert!(config.experimental_nvidia_block());
    assert!(config.battery_auto_switch());
    assert_eq!(config.battery_auto_switch_mode(), Modes::Smart);
    assert!(config.external_display_auto_switch());
    assert_eq!(config.allowed_programs(), &["myprog".to_string()]);
}

#[test]
fn test_from_fields_missing_fields_use_defaults() {
    let mut fields = no_fields();
    fields.auto_apply_gpu_state = Some(false);
    let parsed = CardwireConfig::from_fields(fields).unwrap();
    assert!(!parsed.auto_apply_gpu_state());
    assert!(!parsed.experimental_nvidia_block());
    assert!(!parsed.battery_auto_switch());
    assert_eq!(parsed.battery_auto_switch_mode(), Modes::Hybrid);
    assert!(!parsed.external_display_auto_switch());
    assert!(parsed.allowed_programs().is_empty());
}

#[test]
fn test_from_fields_all_missing_is_default() {
    let parsed = CardwireConfig::from_fields(no_fields()).unwrap();
    assert!(parsed.auto_apply_gpu_state());
    assert!(!parsed.experimental_nvidia_block());
    assert!(!parsed.battery_auto_switch());
    assert_eq!(parsed.battery_auto_switch_mode(), Modes::Hybrid);
    assert!(!parsed.external_display_auto_switch());
    assert!(parsed.allowed_programs().is_empty());
}

#[test]
fn test_from_fields_custom_values() {
    let fields = ConfigFields {
        auto_apply_gpu_state: Some(false),
        experimental_nvidia_block: Some(true),
        battery_auto_switch: Some(true),
        battery_auto_switch_mode: Some("smart".to_string()),
        external_display_auto_switch: Some(true),
        allowed_programs: Some(vec!["myprog".to_string()]),
    };
    let parsed = CardwireConfig::from_fields(fields).unwrap();
    assert!(!parsed.auto_apply_gpu_state());
    assert!(parsed.experimental_nvidia_block());
    assert!(parsed.battery_auto_switch());
    assert_eq!(parsed.battery_auto_switch_mode(), Modes::Smart);
    assert!(parsed.external_display_auto_switch());
    assert_eq!(parsed.allowed_programs(), &["myprog".to_string()]);
}

#[test]
fn test_from_fields_unknown_mode_is_refused() {
    let mut fields = no_fields();
    fields.battery_auto_switch_mode = Some("turbo".to_string());
    assert!(CardwireConfig::from_fields(fields).is_none());
    let mut fields = no_fields();
    fields.battery_auto_switch_mode = Some("Smart".to_string());
    assert!(CardwireConfig::from_fields(fields).is_none());
}

#[test]
fn test_from_parsed_valid_fields() {
    let mut fields = no_fields();
    fields.auto_apply_gpu_state = Some(false);
    fields.battery_auto_switch_mode = Some("smart".to_string());
    let config = CardwireConfig::from_parsed(Some(fields));
    assert!(!config.auto_apply_gpu_state());
    assert_eq!(config.battery_auto_switch_mode(), Modes::Smart);
    assert!(!config.experimental_nvidia_block());
    assert!(!config.external_display_auto_switch());
}

#[test]
fn test_from_parsed_unreadable_file_uses_defaults() {
    let config = CardwireConfig::from_parsed(None);
    assert!(config.auto_apply_gpu_state());
    assert!(!config.experimental_nvidia_block());
    assert!(!config.battery_auto_switch());
    assert_eq!(config.battery_auto_switch_mode(), Modes::Hybrid);
    assert!(!config.external_display_auto_switch());
}

#[test]
fn test_from_parsed_unknown_mode_uses_defaults() {
    let mut fields = no_fields();
    fields.auto_apply_gpu_state = Some(false);
    fields.battery_auto_switch_mode = Some("turbo".to_string());
    let config = CardwireConfig::from_parsed(Some(fields));
    assert!(config.auto_apply_gpu_state());
    assert_eq!(config.battery_auto_switch_mode(), Modes::Hybrid);
}

#[test]
fn test_to_fields_then_from_fields_roundtrip() {
    let config = CardwireConfig::new(
        true,
        false,
        true,
        Modes::Manual,
        false,
        vec!["qemu-event".to_string(), "rpc-libvirtd".to_string()],
    );
    let fields = config.to_fields();
    assert_eq!(fields.battery_auto_switch_mode.as_deref(), Some("manual"));
    let parsed = CardwireConfig::from_fields(fields).unwrap();
    assert_eq!(parsed.auto_apply_gpu_state(), config.auto_apply_gpu_state());
    assert_eq!(parsed.experimental_nvidia_block(), config.experimental_nvidia_block());
    assert_eq!(parsed.battery_auto_switch(), config.battery_auto_switch());
    assert_eq!(parsed.battery_auto_switch_mode(), config.battery_auto_switch_mode());
    assert_eq!(parsed.external_display_auto_switch(), config.external_display_auto_switch());
    assert_eq!(parsed.allowed_programs(), config.allowed_programs());
}
