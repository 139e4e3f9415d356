use precios_carburantes::route::{osrm_failure, route_hash};

#[test]
fn osrm_success() {
    assert_eq!(osrm_failure("Ok".to_string(), None), None);
    assert_eq!(osrm_failure("Ok".to_string(), Some("fine".to_string())), None);
}

#[test]
fn osrm_failures() {
    assert_eq!(
        osrm_failure("NoRoute".to_string(), Some("Impossible route".to_string())),
        Some("Impossible route".to_string())
    );
    assert_eq!(osrm_failure("NoSegment".to_string(), None), Some("NoSegment".to_string()));
    assert_eq!(osrm_failure("ok".to_string(), None), Some("ok".to_string()));
}

#[test]
fn route_hash_of_known_bytes() {
    assert_eq!(
        route_hash(&[]),
        "a7ffc6f8bf1ed76651c14756a061d662f580ff4de43b49fa82d80a4b80f8434a"
    );
    let mut bytes = Vec::new();
    for x in [40.4168f64, -3.7038f64] {
        bytes.extend_from_slice(&x.to_ne_bytes());
    }
    let h = route_hash(&bytes);
    assert_eq!(h.len(), 64);
    assert_ne!(h, route_hash(&[]));
    assert_eq!(h, route_hash(&bytes));
}
