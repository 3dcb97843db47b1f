use sidecar_supervisor::registry::{get_sidecar_port, EndpointRegistry, PortError};

#[test]
fn empty_registry_is_not_available() {
    let r = EndpointRegistry::new();
    assert_eq!(r.get(), None);
    assert_eq!(r.get_port(), Err(PortError::NotAvailable));
}

#[test]
fn registry_is_written_once() {
    let mut r = EndpointRegistry::new();
    assert!(r.set(5000));
    assert!(!r.set(6000));
    assert_eq!(r.get(), Some(5000));
    assert_eq!(r.get_port(), Ok(5000));
}

#[test]
fn registry_keeps_zero() {
    let mut r = EndpointRegistry::new();
    assert!(r.set(0));
    assert_eq!(r.get_port(), Ok(0));
}

#[test]
fn boundary_command_message() {
    let mut r = EndpointRegistry::new();
    assert_eq!(get_sidecar_port(&r), Err("Sidecar port not yet available".to_string()));
    assert_eq!(PortError::NotAvailable.message(), "Sidecar port not yet available");
    r.set(8123);
    assert_eq!(get_sidecar_port(&r), Ok(8123));
}

#[test]
fn default_registry_is_empty() {
    let r = EndpointRegistry::default();
    assert_eq!(r.get_port(), Err(PortError::NotAvailable));
}
