//! The kernel's decisions.

use citadel_internal_service::kernel::credential_fingerprint;

#[test]
fn an_absent_recording_never_matches() {
    assert!(!credential_fingerprint::matches(None, Some(&vec![1, 2, 3])));
}

#[test]
fn an_underivable_presentation_never_matches() {
    assert!(!credential_fingerprint::matches(Some(&vec![1, 2, 3]), None));
}

#[test]
fn two_absences_do_not_agree_with_each_other() {
    assert!(!credential_fingerprint::matches(None, None));
}

#[test]
fn equal_fingerprints_match() {
    assert!(credential_fingerprint::matches(Some(&vec![9, 9, 9]), Some(&vec![9, 9, 9])));
}

#[test]
fn a_different_password_does_not() {
    assert!(!credential_fingerprint::matches(Some(&vec![9, 9, 9]), Some(&vec![9, 9, 8])));
}

#[test]
fn a_prefix_does_not_match_the_whole() {
    assert!(!credential_fingerprint::matches(Some(&vec![9, 9, 9]), Some(&vec![9, 9])));
    assert!(!credential_fingerprint::matches(Some(&vec![9, 9]), Some(&vec![9, 9, 9])));
}

#[test]
fn an_empty_recording_does_not_admit_an_empty_guess() {
    assert!(credential_fingerprint::matches(Some(&vec![]), Some(&vec![])));
    assert!(!credential_fingerprint::matches(None, Some(&vec![])));
}

#[test]
fn an_account_without_a_secret_has_no_fingerprint() {
    let hashed = || Some(vec![1, 2]);
    assert_eq!(credential_fingerprint::derive(true, false, hashed()), hashed());
    assert_eq!(credential_fingerprint::derive(true, true, hashed()), None);
    assert_eq!(credential_fingerprint::derive(false, false, hashed()), None);
    assert_eq!(credential_fingerprint::derive(true, false, None), None);
}
