use crosswatch_auth::clock::{epoch_of_rfc3339, now};

#[test]
fn utc_expiry_reads_as_epoch_seconds() {
    assert_eq!(epoch_of_rfc3339("2025-01-01T00:00:10Z"), Some(1_735_689_610));
    assert_eq!(epoch_of_rfc3339("1970-01-01T00:00:00Z"), Some(0));
}

#[test]
fn numeric_offset_reads_as_the_same_instant() {
    assert_eq!(epoch_of_rfc3339("2025-01-01T01:00:10+01:00"), Some(1_735_689_610));
    assert_eq!(epoch_of_rfc3339("2024-12-31T19:00:10-05:00"), Some(1_735_689_610));
    assert_eq!(epoch_of_rfc3339("2025-01-01T00:00:10.500+00:00"), Some(1_735_689_610));
}

#[test]
fn what_is_no_rfc3339_reads_as_nothing() {
    assert_eq!(epoch_of_rfc3339(""), None);
    assert_eq!(epoch_of_rfc3339("2025-01-01"), None);
    assert_eq!(epoch_of_rfc3339("2025-01-01T00:00:10"), None);
    assert_eq!(epoch_of_rfc3339("tomorrow"), None);
    assert_eq!(epoch_of_rfc3339("1735689610"), None);
}

#[test]
fn now_is_after_2020() {
    assert!(now().unwrap() > 1_577_836_800);
}
