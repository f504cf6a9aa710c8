//! The naming pipeline end to end, with the copy itself left out: the
//! fingerprint of known content run through the destination-name rule.

use uniqopy::fingerprint::fingerprint_of_bytes;
use uniqopy::naming::new_name;
use uniqopy::outcome::{exit_status, FailureKind};

#[test]
fn empty_file_with_extension_names_as_specified() {
    let fp = fingerprint_of_bytes(&[]);
    let r = new_name(Some("example.txt"), true, "2022-02-02-22:22:22", &fp);
    assert_eq!(
        r.unwrap(),
        "example.2022-02-02-22:22:22.d41d8cd98f00b204e9800998ecf8427e.txt"
    );
}

#[test]
fn foobar_file_without_extension_names_as_specified() {
    let fp = fingerprint_of_bytes(b"foobar");
    let r = new_name(Some("example"), true, "2022-02-02-22:22:22", &fp);
    assert_eq!(
        r.unwrap(),
        "example.2022-02-02-22:22:22.3858f62230ac3c915f300c664312c63f"
    );
}

#[test]
fn each_failure_class_has_its_own_status() {
    assert_eq!(exit_status(FailureKind::Usage), 1);
    assert_eq!(exit_status(FailureKind::Read), 2);
    assert_eq!(exit_status(FailureKind::Naming), 3);
    assert_eq!(exit_status(FailureKind::Copy), 4);
}
