use uniqopy::naming::{build_name, new_name, split_file_name, NameError};

#[test]
fn build_name_keeps_extension() {
    let r = build_name("T", "H", "foo", Some("jpg"));
    assert_eq!(r, "foo.T.H.jpg");
}

#[test]
fn build_name_without_extension() {
    let r = build_name("T", "H", "bar", None);
    assert_eq!(r, "bar.T.H");
}

#[test]
fn split_plain_extension() {
    let (stem, ext) = split_file_name("example.txt");
    assert_eq!(stem, "example");
    assert_eq!(ext.as_deref(), Some("txt"));
}

#[test]
fn split_no_extension() {
    let (stem, ext) = split_file_name("example");
    assert_eq!(stem, "example");
    assert_eq!(ext, None);
}

#[test]
fn split_takes_the_last_dot() {
    let (stem, ext) = split_file_name("archive.tar.gz");
    assert_eq!(stem, "archive.tar");
    assert_eq!(ext.as_deref(), Some("gz"));
}

#[test]
fn split_hidden_file_has_no_extension() {
    let (stem, ext) = split_file_name(".bashrc");
    assert_eq!(stem, ".bashrc");
    assert_eq!(ext, None);
}

#[test]
fn split_trailing_dot_gives_empty_extension() {
    let (stem, ext) = split_file_name("note.");
    assert_eq!(stem, "note");
    assert_eq!(ext.as_deref(), Some(""));
}

#[test]
fn new_name_rejects_non_files() {
    let r = new_name(Some("somedir"), false, "T", "H");
    assert_eq!(r, Err(NameError::NotAFile));
}

#[test]
fn new_name_rejects_missing_final_component() {
    let r = new_name(None, true, "T", "H");
    assert_eq!(r, Err(NameError::NoFileName));
}

#[test]
fn not_a_file_takes_precedence_over_no_name() {
    let r = new_name(None, false, "T", "H");
    assert_eq!(r, Err(NameError::NotAFile));
}

#[test]
fn new_name_splices_before_extension() {
    let r = new_name(Some("photo.jpg"), true, "T", "H");
    assert_eq!(r.unwrap(), "photo.T.H.jpg");
}

#[test]
fn new_name_appends_when_no_extension() {
    let r = new_name(Some("photo"), true, "T", "H");
    assert_eq!(r.unwrap(), "photo.T.H");
}

#[test]
fn error_messages_are_fixed() {
    assert_eq!(NameError::NotAFile.message(), "uniqopy only works on files");
    assert_eq!(NameError::NoFileName.message(), "File has no name?");
}
