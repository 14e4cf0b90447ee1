use orion_core::wifi::WifiCredentials;

#[test]
fn credentials_keep_name_and_password() {
    let c = WifiCredentials::new("Home", "secret").unwrap();
    assert_eq!(c.ssid(), b"Home".to_vec());
    assert_eq!(c.password(), b"secret".to_vec());
}

#[test]
fn credentials_refuse_bad_lengths() {
    assert!(WifiCredentials::new("", "pw").is_none());
    assert!(WifiCredentials::new(&"x".repeat(33), "pw").is_none());
    assert!(WifiCredentials::new(&"x".repeat(32), "pw").is_some());
    assert!(WifiCredentials::new("net", &"p".repeat(64)).is_none());
    assert!(WifiCredentials::new("net", &"p".repeat(63)).is_some());
    assert!(WifiCredentials::new("net", "").is_some());
}

#[test]
fn credentials_refuse_zero_bytes() {
    assert!(WifiCredentials::new("ne\0t", "pw").is_none());
    assert!(WifiCredentials::new("net", "p\0w").is_none());
}
