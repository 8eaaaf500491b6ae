//! Error-bridge properties: one variant per status code, message and
//! context preserved, success releasing the record without an error.

use cc::{check_error, error_from_cc, Error, ForeignError};

fn rec(code: i32, message: &str) -> ForeignError {
    ForeignError { code, message: Some(message.to_string()), op: None, path: None }
}

#[test]
fn success_translates_to_no_error() {
    // The record is consumed by the call — released exactly once — and
    // success carries no error out.
    let r = check_error(0, ForeignError::success());
    assert_eq!(r, Ok(()));
}

#[test]
fn hypervisor_unavailable_keeps_message() {
    let e = error_from_cc(rec(6, "vmm missing"));
    assert!(e.is_hypervisor_unavailable());
    assert_eq!(e, Error::HypervisorUnavailable("vmm missing".to_string()));
}

#[test]
fn each_code_maps_to_its_variant() {
    assert_eq!(error_from_cc(rec(1, "x")), Error::InvalidHandle);
    assert_eq!(error_from_cc(rec(2, "bad arg")), Error::InvalidArgument("bad arg".to_string()));
    assert_eq!(error_from_cc(rec(3, "x")), Error::NotRunning);
    assert_eq!(error_from_cc(rec(4, "x")), Error::AlreadyClosed);
    assert_eq!(error_from_cc(rec(5, "x")), Error::Timeout);
    assert_eq!(
        error_from_cc(rec(6, "why")),
        Error::HypervisorUnavailable("why".to_string())
    );
    assert_eq!(error_from_cc(rec(8, "dns")), Error::Network("dns".to_string()));
    assert_eq!(error_from_cc(rec(9, "x")), Error::Cancelled);
    assert_eq!(error_from_cc(rec(99, "odd")), Error::Unknown("odd".to_string()));
}

#[test]
fn io_errors_keep_operation_and_path() {
    let full = ForeignError {
        code: 7,
        message: Some("permission denied".to_string()),
        op: Some("open".to_string()),
        path: Some("/etc/shadow".to_string()),
    };
    let e = error_from_cc(full);
    assert!(e.is_io());
    assert_eq!(
        e,
        Error::Io {
            message: "permission denied".to_string(),
            op: Some("open".to_string()),
            path: Some("/etc/shadow".to_string()),
        }
    );
}

#[test]
fn unmapped_code_preserves_raw_message() {
    // Codes outside the taxonomy are never silently dropped.
    let e = error_from_cc(rec(1234, "vendor-specific failure"));
    assert_eq!(e, Error::Unknown("vendor-specific failure".to_string()));
}

#[test]
fn missing_message_gets_the_fixed_fallback() {
    let e = error_from_cc(ForeignError { code: 2, message: None, op: None, path: None });
    assert_eq!(e, Error::InvalidArgument("Unknown error".to_string()));
}

#[test]
fn check_error_translates_failures() {
    let r = check_error(5, rec(5, "took too long"));
    assert_eq!(r, Err(Error::Timeout));
    let r = check_error(9, rec(9, "stop"));
    let e = r.unwrap_err();
    assert!(e.is_cancelled());
}

#[test]
fn error_predicates_match_their_variants() {
    assert!(Error::Timeout.is_timeout());
    assert!(!Error::Timeout.is_cancelled());
    assert!(Error::Cancelled.is_cancelled());
    assert!(!Error::Cancelled.is_io());
    assert!(
        Error::Io { message: "m".to_string(), op: None, path: None }.is_io()
    );
    assert!(Error::HypervisorUnavailable("h".to_string()).is_hypervisor_unavailable());
    assert!(!Error::InvalidHandle.is_hypervisor_unavailable());
    assert!(!Error::NotRunning.is_timeout());
}
