//! The storage adapter: what becomes of the outcome of a file dialog, a read
//! or a write. The dialog and the I/O themselves belong to the caller, which
//! reports their outcome here and gets back the result the editor is told.

use std::io::ErrorKind;
use std::path::PathBuf;
use vstd::prelude::*;

verus! {

/// `std::path::PathBuf`, carried through the library as an opaque value.
#[verifier::external_type_specification]
#[verifier::external_body]
pub struct ExPathBuf(PathBuf);

/// `std::io::ErrorKind`, the operating system's classification of an I/O
/// failure, carried through the library as an opaque value.
#[verifier::external_type_specification]
#[verifier::external_body]
pub struct ExErrorKind(ErrorKind);

/// The text of a path that is valid Unicode, `None` for any other path: what
/// `Path::to_str` yields.
pub uninterp spec fn path_text(path: PathBuf) -> Option<Seq<char>>;

/// The extension of a path, as `Path::extension` finds it: the part of the
/// file name after its last dot, `None` where there is no such part.
pub uninterp spec fn path_extension(path: PathBuf) -> Option<PathBuf>;

/// The description that `std` prints for a kind of I/O failure.
pub uninterp spec fn error_kind_text(kind: ErrorKind) -> Seq<char>;

/// Calls `PathBuf::from` on a string slice. The path made from a string is
/// valid Unicode and reads back, through `Path::to_str`, as that string.
#[verifier::external_body]
pub(crate) fn path_from(text: &str) -> (path: PathBuf)
    ensures
        path_text(path) == Some(text@),
{
    PathBuf::from(text)
}

/// Calls `Path::to_str`, which yields the path as text if and only if the path
/// is valid Unicode. The slice is copied into a `String`.
#[verifier::external_body]
pub(crate) fn path_to_text(path: &PathBuf) -> (text: Option<String>)
    ensures
        text is Some <==> path_text(*path) is Some,
        text matches Some(t) ==> path_text(*path) == Some(t@),
{
    path.to_str().map(|t| t.to_string())
}

/// Calls `Path::extension`. The extension, an `OsStr`, is handed back as a
/// path of its own so that it can be read with `path_to_text`.
#[verifier::external_body]
pub(crate) fn extension_of(path: &PathBuf) -> (extension: Option<PathBuf>)
    ensures
        extension == path_extension(*path),
{
    path.extension().map(PathBuf::from)
}

/// Calls `Clone::clone` on a path: the copy is the same path.
#[verifier::external_body]
pub(crate) fn clone_path(path: &PathBuf) -> (copy: PathBuf)
    ensures
        copy == *path,
{
    path.clone()
}

/// Calls `ToString::to_string` on an `ErrorKind`, which goes through its
/// `Display` impl: a fixed description for each kind.
#[verifier::external_body]
pub(crate) fn kind_text(kind: ErrorKind) -> (text: String)
    ensures
        text@ == error_kind_text(kind),
{
    kind.to_string()
}

/// Why a file operation did not yield a path.
#[derive(Debug, Clone, Copy, PartialEq, Eq)]
pub enum Error {
    /// The user dismissed a native file dialog without choosing a path.
    DialogClosed,
    /// The filesystem refused the read or the write.
    IO(ErrorKind),
}

/// What a save needs from its surroundings before anything is written.
#[derive(Debug, PartialEq, Eq)]
pub enum SaveStep {
    /// The document has no path yet: show the save dialog first.
    Choose,
    /// Write to this path; no dialog is involved.
    Write(PathBuf),
}

/// The text of the path that is loaded when the editor starts.
pub open spec fn default_file_text() -> Seq<char> {
    "src/main.rs"@
}

/// The path that is loaded when the editor starts.
pub fn default_file() -> (path: PathBuf)
    ensures
        path_text(path) == Some(default_file_text()),
{
    path_from("src/main.rs")
}

/// What loading `path` comes to, given the outcome of reading it.
pub open spec fn load_result(path: PathBuf, read: Result<String, ErrorKind>) -> Result<
    (PathBuf, String),
    Error,
> {
    match read {
        Ok(content) => Ok((path, content)),
        Err(kind) => Err(Error::IO(kind)),
    }
}

/// Finishes a load: the whole content of the file together with its path, or
/// the I/O failure of the read.
pub fn load_file(path: PathBuf, read: Result<String, ErrorKind>) -> (result: Result<
    (PathBuf, String),
    Error,
>)
    ensures
        result == load_result(path, read),
{
    match read {
        Ok(content) => Ok((path, content)),
        Err(kind) => Err(Error::IO(kind)),
    }
}

/// What a file dialog comes to, given the user's choice.
pub open spec fn pick_result(choice: Option<PathBuf>) -> Result<PathBuf, Error> {
    match choice {
        Some(path) => Ok(path),
        None => Err(Error::DialogClosed),
    }
}

/// Finishes a file dialog: the chosen path, or `DialogClosed` where the user
/// chose none.
pub fn pick_file(choice: Option<PathBuf>) -> (result: Result<PathBuf, Error>)
    ensures
        result == pick_result(choice),
{
    match choice {
        Some(path) => Ok(path),
        None => Err(Error::DialogClosed),
    }
}

/// The first step of saving a document whose path is `path`.
pub open spec fn save_step(path: Option<PathBuf>) -> SaveStep {
    match path {
        Some(path) => SaveStep::Write(path),
        None => SaveStep::Choose,
    }
}

/// Starts a save: a document that has a path is written there directly, one
/// that has none asks for a path first.
pub fn save_file(path: Option<PathBuf>) -> (step: SaveStep)
    ensures
        step == save_step(path),
{
    match path {
        Some(path) => SaveStep::Write(path),
        None => SaveStep::Choose,
    }
}

/// What saving to `path` comes to, given the outcome of the write.
pub open spec fn save_result(path: PathBuf, written: Result<(), ErrorKind>) -> Result<
    PathBuf,
    Error,
> {
    match written {
        Ok(_) => Ok(path),
        Err(kind) => Err(Error::IO(kind)),
    }
}

/// Finishes a save: the path that now holds the text, or the I/O failure of
/// the write.
pub fn file_saved(path: PathBuf, written: Result<(), ErrorKind>) -> (result: Result<
    PathBuf,
    Error,
>)
    ensures
        result == save_result(path, written),
{
    match written {
        Ok(_) => Ok(path),
        Err(kind) => Err(Error::IO(kind)),
    }
}

} // verus!
