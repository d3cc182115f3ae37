use opcua_monitoring::crypto::{is_crypto_enabled, Crypto128Rsa15, X509CreateCertArgs};
use std::path::PathBuf;

#[test]
fn crypto_is_not_built_in() {
    assert!(!is_crypto_enabled());
}

#[test]
fn certificate_arguments_hold_what_they_are_given() {
    let args = X509CreateCertArgs {
        key_size: 2048,
        pki_path: PathBuf::from("./pki"),
        overwrite: true,
        common_name: "server".to_string(),
        organization: "org".to_string(),
        organizational_unit: "unit".to_string(),
        country: "IE".to_string(),
        state: "Dublin".to_string(),
        alt_host_names: vec!["localhost".to_string()],
        certificate_duration_days: 365,
    };
    assert_eq!(args.key_size, 2048);
    assert_eq!(args.pki_path, PathBuf::from("./pki"));
    assert_eq!(args.alt_host_names.len(), 1);
    assert_eq!(format!("{:?}", Crypto128Rsa15 {}), "Crypto128Rsa15");
}
