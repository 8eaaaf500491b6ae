//! API version and library-level runtime tests.

use cc::boundary::RawCapabilities;
use cc::{finish_init, finish_query_capabilities, finish_supports_hypervisor, ForeignError};

#[test]
fn test_api_version() {
    let version = cc::api_version();
    assert_eq!(version, "0.1.0", "Expected API version 0.1.0, got {}", version);
}

#[test]
fn test_api_version_compatible() {
    // Compatible versions
    assert!(cc::api_version_compatible(0, 1), "0.1 should be compatible");
    assert!(cc::api_version_compatible(0, 0), "0.0 should be compatible");

    // Incompatible versions
    assert!(!cc::api_version_compatible(1, 0), "1.0 should NOT be compatible");
    assert!(!cc::api_version_compatible(0, 99), "0.99 should NOT be compatible");
}

#[test]
fn test_init_shutdown() {
    // A successful initialization code settles to Ok; a failing one to
    // the unknown-error variant.
    finish_init(0).expect("init should succeed");
    let failed = finish_init(99);
    assert_eq!(failed, Err(cc::Error::Unknown("init failed with code 99".to_string())));
}

#[test]
fn test_guest_protocol_version() {
    finish_init(0).expect("init should succeed");
    let version = cc::guest_protocol_version();
    assert_eq!(version, 1, "Expected guest protocol version 1, got {}", version);
}

#[test]
fn test_supports_hypervisor() {
    // A success code reports support; the dedicated unavailability code
    // reports no support without raising.
    let result = finish_supports_hypervisor(0, ForeignError::success());
    assert!(result.is_ok(), "supports_hypervisor should return Ok");
    assert_eq!(result.unwrap(), true);

    let rec = ForeignError {
        code: 6,
        message: Some("no hypervisor".to_string()),
        op: None,
        path: None,
    };
    let result = finish_supports_hypervisor(6, rec);
    assert_eq!(result.unwrap(), false);
}

#[test]
fn test_query_capabilities() {
    let raw = RawCapabilities {
        hypervisor_available: true,
        max_memory_mb: 8192,
        max_cpus: 8,
        architecture: Some("x86_64".to_string()),
    };
    let caps = finish_query_capabilities(ForeignError::success(), raw)
        .expect("query_capabilities should succeed");

    // Architecture should be non-empty
    assert!(!caps.architecture.is_empty(), "architecture should not be empty");

    // Should be one of the known architectures
    assert!(
        caps.architecture == "x86_64"
            || caps.architecture == "amd64"
            || caps.architecture == "arm64"
            || caps.architecture == "aarch64"
            || caps.architecture == "riscv64",
        "unexpected architecture: {}",
        caps.architecture
    );

    println!(
        "Capabilities: hypervisor={}, arch={}, max_memory={}MB, max_cpus={}",
        caps.hypervisor_available, caps.architecture, caps.max_memory_mb, caps.max_cpus
    );
}

#[test]
fn test_supports_hypervisor_error() {
    // Any other code is a real error, translated through the bridge.
    let rec = ForeignError {
        code: 99,
        message: Some("probe exploded".to_string()),
        op: None,
        path: None,
    };
    let result = finish_supports_hypervisor(99, rec);
    assert_eq!(result, Err(cc::Error::Unknown("probe exploded".to_string())));
}

#[test]
fn test_query_capabilities_missing_architecture() {
    let raw = RawCapabilities {
        hypervisor_available: false,
        max_memory_mb: 0,
        max_cpus: 0,
        architecture: None,
    };
    let caps = finish_query_capabilities(ForeignError::success(), raw).unwrap();
    assert_eq!(caps.architecture, "");
    assert!(!caps.hypervisor_available);
}

#[test]
fn test_decimal_rendering() {
    assert_eq!(cc::runtime::decimal_string(0), "0");
    assert_eq!(cc::runtime::decimal_string(7), "7");
    assert_eq!(cc::runtime::decimal_string(99), "99");
    assert_eq!(cc::runtime::decimal_string(1040), "1040");
    assert_eq!(cc::runtime::decimal_string(-17), "-17");
    assert_eq!(cc::runtime::decimal_string(i32::MAX), "2147483647");
    assert_eq!(cc::runtime::decimal_string(i32::MIN), "-2147483648");
}
