use rmacs::filesystem::Error;
use rmacs::status::{
    decimal_string, error_message, highlight_extension, position_label, status_kind, status_line,
    StatusCase,
};
use std::io::ErrorKind;
use std::path::PathBuf;

#[test]
fn decimal_string_writes_numbers() {
    assert_eq!(decimal_string(0), "0");
    assert_eq!(decimal_string(7), "7");
    assert_eq!(decimal_string(10), "10");
    assert_eq!(decimal_string(1234567890), "1234567890");
    assert_eq!(decimal_string(u128::MAX), "340282366920938463463374607431768211455");
}

#[test]
fn position_label_counts_from_one() {
    assert_eq!(position_label(0, 0), "1:1");
    assert_eq!(position_label(2, 11), "3:12");
    assert_eq!(position_label(99, 9), "100:10");
}

#[test]
fn position_label_does_not_overflow() {
    let label = position_label(usize::MAX, usize::MAX);
    let one_more = format!("{}", usize::MAX as u128 + 1);
    assert_eq!(label, format!("{}:{}", one_more, one_more));
}

#[test]
fn error_message_of_each_kind() {
    assert_eq!(error_message(Error::DialogClosed), "dialog closed");
    assert_eq!(error_message(Error::IO(ErrorKind::NotFound)), ErrorKind::NotFound.to_string());
    assert_eq!(error_message(Error::IO(ErrorKind::NotFound)), "entity not found");
}

#[test]
fn status_line_shows_the_error_before_the_path() {
    let path = PathBuf::from("/tmp/a.txt");
    assert_eq!(
        status_line(Some(Error::IO(ErrorKind::PermissionDenied)), Some(&path)),
        "permission denied"
    );
    assert_eq!(status_line(Some(Error::DialogClosed), Some(&path)), "dialog closed");
    assert_eq!(status_line(Some(Error::DialogClosed), None), "dialog closed");
}

#[test]
fn status_line_shows_the_path() {
    let path = PathBuf::from("/tmp/a.txt");
    assert_eq!(status_line(None, Some(&path)), "/tmp/a.txt");
}

#[test]
fn status_line_of_a_new_document() {
    assert_eq!(status_line(None, None), "New file");
}

#[test]
fn highlight_extension_is_that_of_the_path() {
    assert_eq!(highlight_extension(Some(&PathBuf::from("/tmp/notes.txt"))), "txt");
    assert_eq!(highlight_extension(Some(&PathBuf::from("archive.tar.gz"))), "gz");
    assert_eq!(highlight_extension(Some(&PathBuf::from("src/main.rs"))), "rs");
}

#[test]
fn highlight_extension_defaults_to_rs() {
    assert_eq!(highlight_extension(None), "rs");
    assert_eq!(highlight_extension(Some(&PathBuf::from("/tmp/Makefile"))), "rs");
    assert_eq!(highlight_extension(Some(&PathBuf::from("/home/me/.bashrc"))), "rs");
    assert_eq!(highlight_extension(Some(&PathBuf::from("/tmp/dotted.dir/plain"))), "rs");
}

#[test]
fn status_kind_names_what_is_shown() {
    let path = PathBuf::from("/tmp/a.txt");
    assert_eq!(status_kind(Some(Error::DialogClosed), Some(&path)), StatusCase::Failure);
    assert_eq!(status_kind(Some(Error::IO(ErrorKind::NotFound)), None), StatusCase::Failure);
    assert_eq!(status_kind(None, Some(&path)), StatusCase::Path);
    assert_eq!(status_kind(None, None), StatusCase::NewFile);
}
