use cert_registry::certificate::{Certificate, Identity};
use cert_registry::registry::{CertificateContract, RevokeError};

const PLACEHOLDER: &str = "GAAAAAAAAAAAAAAAAAAAAAAAAAAAAAAAAAAAAAAAAAAAAAAAAAAAAWHF";

fn id(s: &str) -> Identity {
    Identity::new(s.to_string())
}

fn issue(reg: &mut CertificateContract, who: &str, student: &str, course: &str, inst: &str, date: u64) -> u64 {
    reg.issue_certificate(id(who), student.to_string(), course.to_string(), inst.to_string(), date)
}

fn assert_sentinel(c: &Certificate) {
    assert_eq!(c.cert_id, 0);
    assert_eq!(c.student_name, "Not_Found");
    assert_eq!(c.course_name, "Not_Found");
    assert_eq!(c.institution, "Not_Found");
    assert_eq!(c.issue_date, 0);
    assert_eq!(c.issuer.address, PLACEHOLDER);
    assert!(!c.is_valid);
}

#[test]
fn issue_revoke_scenario() {
    let mut reg = CertificateContract::new();
    assert_eq!(issue(&mut reg, "A", "Alice", "Math101", "Univ", 10), 1);
    assert_eq!(issue(&mut reg, "A", "Bob", "Physics", "Univ", 11), 2);
    assert_eq!(reg.get_total_certificates(), 2);
    assert_eq!(reg.revoke_certificate(&id("A"), 1), Ok(()));
    assert!(!reg.verify_certificate(1).is_valid);
    assert!(reg.verify_certificate(2).is_valid);
    assert_eq!(reg.revoke_certificate(&id("B"), 2), Err(RevokeError::NotIssuer));
    assert!(reg.verify_certificate(2).is_valid);
}

#[test]
fn ids_count_up_from_one() {
    let mut reg = CertificateContract::new();
    assert_eq!(reg.get_total_certificates(), 0);
    for expected in 1..=5u64 {
        assert_eq!(issue(&mut reg, "A", "S", "C", "I", expected), expected);
        assert_eq!(reg.get_total_certificates(), expected);
    }
}

#[test]
fn verify_returns_issued_fields() {
    let mut reg = CertificateContract::new();
    issue(&mut reg, "A", "Alice", "Math101", "Univ", 1700);
    issue(&mut reg, "B", "Bob", "Physics", "Poly", 1800);
    assert_eq!(reg.revoke_certificate(&id("A"), 1), Ok(()));
    let c = reg.verify_certificate(2);
    assert_eq!(c.cert_id, 2);
    assert_eq!(c.student_name, "Bob");
    assert_eq!(c.course_name, "Physics");
    assert_eq!(c.institution, "Poly");
    assert_eq!(c.issue_date, 1800);
    assert_eq!(c.issuer.address, "B");
    assert!(c.is_valid);
}

#[test]
fn verify_unknown_gives_sentinel() {
    let mut reg = CertificateContract::new();
    assert_sentinel(&reg.verify_certificate(0));
    assert_sentinel(&reg.verify_certificate(1));
    issue(&mut reg, "A", "Alice", "Math101", "Univ", 5);
    assert_sentinel(&reg.verify_certificate(0));
    assert_sentinel(&reg.verify_certificate(2));
    assert_sentinel(&reg.verify_certificate(u64::MAX));
}

#[test]
fn revoke_keeps_other_fields() {
    let mut reg = CertificateContract::new();
    issue(&mut reg, "A", "Alice", "Math101", "Univ", 42);
    assert_eq!(reg.revoke_certificate(&id("A"), 1), Ok(()));
    let c = reg.verify_certificate(1);
    assert_eq!(c.cert_id, 1);
    assert_eq!(c.student_name, "Alice");
    assert_eq!(c.course_name, "Math101");
    assert_eq!(c.institution, "Univ");
    assert_eq!(c.issue_date, 42);
    assert_eq!(c.issuer.address, "A");
    assert!(!c.is_valid);
    assert_eq!(reg.get_total_certificates(), 1);
}

#[test]
fn revoke_twice_succeeds() {
    let mut reg = CertificateContract::new();
    issue(&mut reg, "A", "Alice", "Math101", "Univ", 42);
    assert_eq!(reg.revoke_certificate(&id("A"), 1), Ok(()));
    assert_eq!(reg.revoke_certificate(&id("A"), 1), Ok(()));
    assert!(!reg.verify_certificate(1).is_valid);
}

#[test]
fn revoke_by_other_changes_nothing() {
    let mut reg = CertificateContract::new();
    issue(&mut reg, "A", "Alice", "Math101", "Univ", 42);
    let before = reg.verify_certificate(1);
    assert_eq!(reg.revoke_certificate(&id("B"), 1), Err(RevokeError::NotIssuer));
    let after = reg.verify_certificate(1);
    assert_eq!(before.student_name, after.student_name);
    assert_eq!(before.issue_date, after.issue_date);
    assert_eq!(before.issuer.address, after.issuer.address);
    assert!(after.is_valid);
}

#[test]
fn revoke_missing_changes_nothing() {
    let mut reg = CertificateContract::new();
    assert_eq!(reg.revoke_certificate(&id("A"), 1), Err(RevokeError::NotFound));
    issue(&mut reg, "A", "Alice", "Math101", "Univ", 42);
    assert_eq!(reg.revoke_certificate(&id("A"), 0), Err(RevokeError::NotFound));
    assert_eq!(reg.revoke_certificate(&id("A"), 2), Err(RevokeError::NotFound));
    assert_eq!(reg.get_total_certificates(), 1);
    assert!(reg.verify_certificate(1).is_valid);
}

#[test]
fn identity_comparison_is_exact() {
    assert!(id("GABC").same_as(&id("GABC")));
    assert!(!id("GABC").same_as(&id("GABD")));
    assert!(!id("GABC").same_as(&id("GABC ")));
}

#[test]
fn restore_checks_numbering() {
    let mut reg = CertificateContract::new();
    issue(&mut reg, "A", "Alice", "Math101", "Univ", 1);
    issue(&mut reg, "A", "Bob", "Physics", "Univ", 2);
    let records = vec![reg.verify_certificate(1), reg.verify_certificate(2)];
    let back = CertificateContract::restore(records).expect("well numbered");
    assert_eq!(back.get_total_certificates(), 2);
    assert_eq!(back.verify_certificate(2).student_name, "Bob");
    let swapped = vec![reg.verify_certificate(2), reg.verify_certificate(1)];
    assert!(CertificateContract::restore(swapped).is_none());
    assert_eq!(CertificateContract::restore(Vec::new()).map(|r| r.get_total_certificates()), Some(0));
}
