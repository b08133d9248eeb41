use rmacs::filesystem::{default_file, file_saved, load_file, pick_file, save_file, Error, SaveStep};
use std::io::ErrorKind;
use std::path::PathBuf;

#[test]
fn default_file_is_the_bootstrap_path() {
    assert_eq!(default_file(), PathBuf::from("src/main.rs"));
}

#[test]
fn load_file_hands_back_path_and_content() {
    let path = PathBuf::from("/tmp/notes.txt");
    let loaded = load_file(path.clone(), Ok(String::from("first\nsecond\n")));
    assert_eq!(loaded, Ok((path, String::from("first\nsecond\n"))));
}

#[test]
fn load_file_keeps_an_empty_file_empty() {
    let loaded = load_file(PathBuf::from("empty"), Ok(String::new()));
    assert_eq!(loaded, Ok((PathBuf::from("empty"), String::new())));
}

#[test]
fn load_file_maps_a_failed_read_to_io() {
    let loaded = load_file(PathBuf::from("/nowhere"), Err(ErrorKind::NotFound));
    assert_eq!(loaded, Err(Error::IO(ErrorKind::NotFound)));
    let loaded = load_file(PathBuf::from("/etc/shadow"), Err(ErrorKind::PermissionDenied));
    assert_eq!(loaded, Err(Error::IO(ErrorKind::PermissionDenied)));
}

#[test]
fn load_file_reports_content_that_is_not_utf8_as_io() {
    let loaded = load_file(PathBuf::from("image.png"), Err(ErrorKind::InvalidData));
    assert_eq!(loaded, Err(Error::IO(ErrorKind::InvalidData)));
}

#[test]
fn pick_file_yields_the_chosen_path() {
    let picked = pick_file(Some(PathBuf::from("/home/me/a.rs")));
    assert_eq!(picked, Ok(PathBuf::from("/home/me/a.rs")));
}

#[test]
fn pick_file_without_a_choice_is_dialog_closed() {
    assert_eq!(pick_file(None), Err(Error::DialogClosed));
}

#[test]
fn save_file_with_a_path_writes_directly() {
    match save_file(Some(PathBuf::from("/tmp/p.txt"))) {
        SaveStep::Write(path) => assert_eq!(path, PathBuf::from("/tmp/p.txt")),
        SaveStep::Choose => panic!("a document with a path must not ask for one"),
    }
}

#[test]
fn save_file_without_a_path_asks_first() {
    assert!(matches!(save_file(None), SaveStep::Choose));
}

#[test]
fn file_saved_yields_the_written_path() {
    let saved = file_saved(PathBuf::from("/tmp/out.txt"), Ok(()));
    assert_eq!(saved, Ok(PathBuf::from("/tmp/out.txt")));
}

#[test]
fn file_saved_maps_a_failed_write_to_io() {
    let saved = file_saved(PathBuf::from("/readonly/out.txt"), Err(ErrorKind::PermissionDenied));
    assert_eq!(saved, Err(Error::IO(ErrorKind::PermissionDenied)));
}
