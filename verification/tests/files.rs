use cardwire_daemon::files::{
    config_file_path, is_stale_tmp_name, stale_tmp_files, tmp_file_name, tmp_file_path,
};
use cardwire_daemon::text::decimal;

#[test]
fn test_config_file_path() {
    assert_eq!(config_file_path("/etc/cardwire"), "/etc/cardwire/cardwire.toml");
}

#[test]
fn test_tmp_file_names() {
    assert_eq!(tmp_file_name(0), "cardwire.toml.0.tmp");
    assert_eq!(tmp_file_name(1718000000123456789), "cardwire.toml.1718000000123456789.tmp");
    assert_eq!(
        tmp_file_path("/etc/cardwire", 42),
        "/etc/cardwire/cardwire.toml.42.tmp"
    );
    assert_ne!(tmp_file_name(12), tmp_file_name(120));
}

#[test]
fn test_decimal() {
    assert_eq!(decimal(0), "0");
    assert_eq!(decimal(9), "9");
    assert_eq!(decimal(10), "10");
    assert_eq!(decimal(u128::MAX), u128::MAX.to_string());
}

#[test]
fn test_stale_tmp_names() {
    assert!(is_stale_tmp_name("cardwire.toml.1718000000123456789.tmp"));
    assert!(is_stale_tmp_name(&tmp_file_name(77)));
    assert!(is_stale_tmp_name("cardwire.toml.tmp"));
    assert!(!is_stale_tmp_name("cardwire.toml"));
    assert!(!is_stale_tmp_name("cardwire.toml.bak"));
    assert!(!is_stale_tmp_name("other.toml.1.tmp"));
    assert!(!is_stale_tmp_name("gpu.json"));
}

#[test]
fn test_stale_tmp_files_filter() {
    let names = vec![
        "cardwire.toml".to_string(),
        "cardwire.toml.5.tmp".to_string(),
        "gpu.json".to_string(),
        "cardwire.toml.17.tmp".to_string(),
    ];
    assert_eq!(
        stale_tmp_files(&names),
        vec!["cardwire.toml.5.tmp".to_string(), "cardwire.toml.17.tmp".to_string()]
    );
    assert!(stale_tmp_files(&[]).is_empty());
}
