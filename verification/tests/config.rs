use precios_carburantes::config::{ca_default, user_certs_default, CertConfig};

#[test]
fn default_certificate_paths() {
    assert_eq!(ca_default(), "certs/CA");
    assert_eq!(user_certs_default(), "certs/users");
    let c = CertConfig::default();
    assert_eq!(c.ca, "certs/CA");
    assert_eq!(c.user_certs, "certs/users");
    assert!(!c.reload_nginx);
}
