use opstore::config::{contains_key, missing_key, validate_config};
use opstore::error::ErrorKind;

fn pairs(items: &[(&str, &str)]) -> Vec<(String, String)> {
    items.iter().map(|(k, v)| (k.to_string(), v.to_string())).collect()
}

fn keys(items: &[&str]) -> Vec<String> {
    items.iter().map(|k| k.to_string()).collect()
}

#[test]
fn complete_configuration_is_accepted() {
    let config = pairs(&[("endpoint", "redis://localhost"), ("root", "/"), ("db", "0")]);
    assert!(validate_config(&keys(&["endpoint", "root"]), &config).is_ok());
    assert!(validate_config(&keys(&[]), &config).is_ok());
    assert!(validate_config(&keys(&[]), &pairs(&[])).is_ok());
    assert_eq!(missing_key(&keys(&["db", "root", "endpoint"]), &config), None);
}

#[test]
fn missing_key_is_invalid_input() {
    let config = pairs(&[("endpoint", "redis://localhost"), ("root", "/")]);
    let e = validate_config(&keys(&["endpoint", "password", "db"]), &config).unwrap_err();
    assert_eq!(e.kind(), ErrorKind::InvalidInput);
    assert_eq!(e.message(), "configuration lacks a required key");
    assert!(!e.is_retryable());
    assert_eq!(missing_key(&keys(&["endpoint", "password", "db"]), &config), Some(1));
    assert_eq!(missing_key(&keys(&["db"]), &pairs(&[])), Some(0));
}

#[test]
fn keys_are_compared_whole() {
    let config = pairs(&[("endpoint", ""), ("Root", "/")]);
    assert!(contains_key(&config, &"endpoint".to_string()));
    assert!(!contains_key(&config, &"root".to_string()));
    assert!(!contains_key(&config, &"end".to_string()));
    assert!(!contains_key(&config, &"".to_string()));
    assert!(contains_key(&config, &"Root".to_string()));
}
