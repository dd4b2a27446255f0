use xc_swap::registry::EndpointRegistry;

#[test]
fn lookup_and_trust() {
    let mut reg = EndpointRegistry::new();
    assert_eq!(reg.lookup(2), None);
    assert!(reg.register(2, [0xEE; 32]));
    assert!(reg.register(4, [0x44; 32]));
    assert_eq!(reg.lookup(2), Some([0xEE; 32]));
    assert_eq!(reg.lookup(4), Some([0x44; 32]));
    assert_eq!(reg.lookup(5), None);
    assert!(reg.is_trusted(2, &[0xEE; 32]));
    assert!(!reg.is_trusted(2, &[0x44; 32]));
    assert!(!reg.is_trusted(5, &[0xEE; 32]));
}

#[test]
fn registered_endpoint_is_kept() {
    let mut reg = EndpointRegistry::new();
    assert!(reg.register(2, [0xEE; 32]));
    assert!(!reg.register(2, [0x66; 32]));
    assert_eq!(reg.lookup(2), Some([0xEE; 32]));
}
