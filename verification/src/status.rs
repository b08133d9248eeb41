//! What the status bar and the highlighter show of the editor's state: the
//! status text, the position of the cursor counted from one, and the file
//! extension that selects the highlighting.

use crate::filesystem::{
    error_kind_text, extension_of, kind_text, path_extension, path_text, path_to_text, Error,
};
use std::path::PathBuf;
use vstd::prelude::*;

verus! {

/// The character of a decimal digit.
pub open spec fn digit(d: nat) -> char {
    if d == 0 {
        '0'
    } else if d == 1 {
        '1'
    } else if d == 2 {
        '2'
    } else if d == 3 {
        '3'
    } else if d == 4 {
        '4'
    } else if d == 5 {
        '5'
    } else if d == 6 {
        '6'
    } else if d == 7 {
        '7'
    } else if d == 8 {
        '8'
    } else {
        '9'
    }
}

/// A number in decimal, without leading zeros.
pub open spec fn decimal(n: nat) -> Seq<char>
    decreases n,
{
    if n < 10 {
        seq![digit(n)]
    } else {
        decimal(n / 10).push(digit(n % 10))
    }
}

/// The position of the cursor as the status bar shows it: line and column,
/// both counted from one, with a colon between them.
pub open spec fn position_text(line: nat, column: nat) -> Seq<char> {
    decimal(line + 1) + seq![':'] + decimal(column + 1)
}

/// The text by which an error is shown.
pub open spec fn error_text(error: Error) -> Seq<char> {
    match error {
        Error::DialogClosed => "dialog closed"@,
        Error::IO(kind) => error_kind_text(kind),
    }
}

/// Which of its three texts the status bar shows.
#[derive(Debug, Clone, Copy, PartialEq, Eq)]
pub enum StatusCase {
    /// The last error.
    Failure,
    /// The path of the document.
    Path,
    /// "New file": the document has no path, or one that is not valid Unicode.
    NewFile,
}

/// Which text the status bar shows: the last error where there is one, else
/// the path of the document where it has one that is valid Unicode.
pub open spec fn status_case(error: Option<Error>, path: Option<PathBuf>) -> StatusCase {
    if error is Some {
        StatusCase::Failure
    } else if path is Some && path_text(path->0) is Some {
        StatusCase::Path
    } else {
        StatusCase::NewFile
    }
}

/// The text of the status bar.
pub open spec fn status_text(error: Option<Error>, path: Option<PathBuf>) -> Seq<char> {
    match status_case(error, path) {
        StatusCase::Failure => error_text(error->0),
        StatusCase::Path => path_text(path->0)->0,
        StatusCase::NewFile => "New file"@,
    }
}

/// The file extension that selects the highlighting: that of the path, "rs"
/// where there is no path, no extension or one that is not valid Unicode.
pub open spec fn extension_text(path: Option<PathBuf>) -> Seq<char> {
    match path {
        Some(path) => match path_extension(path) {
            Some(extension) => match path_text(extension) {
                Some(text) => text,
                None => "rs"@,
            },
            None => "rs"@,
        },
        None => "rs"@,
    }
}

fn digit_str(d: u128) -> (text: &'static str)
    requires
        d < 10,
    ensures
        text@ == seq![digit(d as nat)],
{
    proof {
        reveal_strlit("0");
        reveal_strlit("1");
        reveal_strlit("2");
        reveal_strlit("3");
        reveal_strlit("4");
        reveal_strlit("5");
        reveal_strlit("6");
        reveal_strlit("7");
        reveal_strlit("8");
        reveal_strlit("9");
    }
    let text = if d == 0 {
        "0"
    } else if d == 1 {
        "1"
    } else if d == 2 {
        "2"
    } else if d == 3 {
        "3"
    } else if d == 4 {
        "4"
    } else if d == 5 {
        "5"
    } else if d == 6 {
        "6"
    } else if d == 7 {
        "7"
    } else if d == 8 {
        "8"
    } else {
        "9"
    };
    assert(text@ =~= seq![digit(d as nat)]);
    text
}

/// Writes a number in decimal.
pub fn decimal_string(n: u128) -> (text: String)
    ensures
        text@ == decimal(n as nat),
    decreases n,
{
    if n < 10 {
        String::from_str(digit_str(n))
    } else {
        let mut text = decimal_string(n / 10);
        text.append(digit_str(n % 10));
        assert(text@ =~= decimal(n as nat));
        text
    }
}

/// The position of the cursor as the status bar shows it, from the line and
/// column counted from zero.
pub fn position_label(line: usize, column: usize) -> (label: String)
    ensures
        label@ == position_text(line as nat, column as nat),
{
    let mut label = decimal_string(line as u128 + 1);
    proof {
        reveal_strlit(":");
    }
    label.append(":");
    let column_text = decimal_string(column as u128 + 1);
    label.append(column_text.as_str());
    assert(label@ =~= position_text(line as nat, column as nat));
    label
}

/// The text by which an error is shown.
pub fn error_message(error: Error) -> (text: String)
    ensures
        text@ == error_text(error),
{
    match error {
        Error::DialogClosed => String::from_str("dialog closed"),
        Error::IO(kind) => kind_text(kind),
    }
}

/// Which of its three texts the status bar shows.
pub fn status_kind(error: Option<Error>, path: Option<&PathBuf>) -> (case: StatusCase)
    ensures
        case == status_case(
            error,
            match path {
                Some(path) => Some(*path),
                None => None,
            },
        ),
{
    match error {
        Some(_) => StatusCase::Failure,
        None => match path {
            Some(path) => match path_to_text(path) {
                Some(_) => StatusCase::Path,
                None => StatusCase::NewFile,
            },
            None => StatusCase::NewFile,
        },
    }
}

/// The text of the status bar.
pub fn status_line(error: Option<Error>, path: Option<&PathBuf>) -> (text: String)
    ensures
        text@ == status_text(
            error,
            match path {
                Some(path) => Some(*path),
                None => None,
            },
        ),
{
    match error {
        Some(error) => error_message(error),
        None => match path {
            Some(path) => match path_to_text(path) {
                Some(text) => text,
                None => String::from_str("New file"),
            },
            None => String::from_str("New file"),
        },
    }
}

/// The file extension that selects the highlighting.
pub fn highlight_extension(path: Option<&PathBuf>) -> (extension: String)
    ensures
        extension@ == extension_text(
            match path {
                Some(path) => Some(*path),
                None => None,
            },
        ),
{
    match path {
        Some(path) => match extension_of(path) {
            Some(extension) => match path_to_text(&extension) {
                Some(text) => text,
                None => String::from_str("rs"),
            },
            None => String::from_str("rs"),
        },
        None => String::from_str("rs"),
    }
}

} // verus!
