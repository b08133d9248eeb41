//! The editor's state and the transition that each message causes. A
//! transition never touches a file, a dialog or a widget: where a file
//! operation is needed it is handed back as an effect, and its outcome arrives
//! later as a message.

use crate::document::{after, fresh, Document, DocumentView, Edited};
use crate::filesystem::{clone_path, Error};
use crate::status::{
    extension_text, highlight_extension, position_label, position_text, status_case, status_kind,
    status_line, status_text, StatusCase,
};
use std::path::PathBuf;
use vstd::prelude::*;

verus! {

/// `Clone::clone` on a `Result`, which the derived `Clone` of `Message`
/// calls. Nothing is claimed of the copy.
pub assume_specification<T, E>[ <Result<T, E> as Clone>::clone ](result: &Result<T, E>) -> (copy:
    Result<T, E>)
    where E: Clone, T: Clone
;

/// A user intent or the outcome of a file operation.
#[derive(Debug, Clone)]
pub enum Message {
    /// An entry of the menu bar that only opens its menu.
    FileMenuBar(String),
    /// The text widget has performed an action on its buffer, with this
    /// outcome.
    Edit(Edited),
    /// Start a new, unsaved document.
    New,
    /// Choose a file and load it.
    Open,
    /// A load has finished, with the file's path and content or with the
    /// reason why there is none.
    FileOpened(Result<(PathBuf, String), Error>),
    /// Write the document to its file.
    Save,
    /// A save has finished, with the path written to or with the reason why
    /// nothing was written.
    FileSaved(Result<PathBuf, Error>),
}

/// What a transition asks of the surroundings.
#[derive(Debug, PartialEq, Eq)]
pub enum Effect {
    /// Nothing.
    Nothing,
    /// Read the file at this path and report with `Message::FileOpened`.
    Load(PathBuf),
    /// Let the user choose a file, read it and report with
    /// `Message::FileOpened`.
    PickFile,
    /// Write `text` to `path`, asking the user for a path first where there is
    /// none, and report with `Message::FileSaved`.
    Save { path: Option<PathBuf>, text: String },
}

/// An effect, with its text as a sequence of characters.
pub enum EffectView {
    Nothing,
    Load(PathBuf),
    PickFile,
    Save { path: Option<PathBuf>, text: Seq<char> },
}

impl View for Effect {
    type V = EffectView;

    open spec fn view(&self) -> EffectView {
        match *self {
            Effect::Nothing => EffectView::Nothing,
            Effect::Load(path) => EffectView::Load(path),
            Effect::PickFile => EffectView::PickFile,
            Effect::Save { path, text } => EffectView::Save { path, text: text@ },
        }
    }
}

/// What an editor is, to its users.
pub struct EditorView {
    /// Where the document was loaded from or last saved to; `None` for a new
    /// document.
    pub path: Option<PathBuf>,
    /// The document.
    pub buffer: DocumentView,
    /// The last failure of a file operation that no edit has followed.
    pub last_error: Option<Error>,
}

/// The state of the editor: the path of the document, the document and the
/// last error.
pub struct Editor {
    path: Option<PathBuf>,
    content: Document,
    error: Option<Error>,
}

impl View for Editor {
    type V = EditorView;

    closed spec fn view(&self) -> EditorView {
        EditorView { path: self.path, buffer: self.content@, last_error: self.error }
    }
}

/// The editor before anything has happened: a new, empty document and no
/// error.
pub open spec fn initial() -> EditorView {
    EditorView { path: None, buffer: fresh(Seq::empty()), last_error: None }
}

/// Whether a message puts a new document in the place of the old one, so that
/// the text widget has to start over from the editor's text.
pub open spec fn replaces_document(message: Message) -> bool {
    message is New || message matches Message::FileOpened(Ok(_))
}

/// Whether `message` takes an editor from `pre` to `post` and asks for
/// `effect`. Each message fixes both.
pub open spec fn transition(
    pre: EditorView,
    message: Message,
    post: EditorView,
    effect: EffectView,
) -> bool {
    match message {
        Message::FileMenuBar(_) => post == pre && effect == EffectView::Nothing,
        Message::Edit(edited) => {
            &&& post == EditorView { buffer: after(pre.buffer, edited), last_error: None, ..pre }
            &&& effect == EffectView::Nothing
        },
        Message::New => {
            &&& post == EditorView { path: None, buffer: fresh(Seq::empty()), ..pre }
            &&& effect == EffectView::Nothing
        },
        Message::Open => post == pre && effect == EffectView::PickFile,
        Message::FileOpened(Ok((path, content))) => {
            &&& post == EditorView { path: Some(path), buffer: fresh(content@), ..pre }
            &&& effect == EffectView::Nothing
        },
        Message::FileOpened(Err(error)) => {
            &&& post == EditorView { last_error: Some(error), ..pre }
            &&& effect == EffectView::Nothing
        },
        Message::Save => {
            &&& post == pre
            &&& effect == EffectView::Save { path: pre.path, text: pre.buffer.text }
        },
        Message::FileSaved(Ok(path)) => {
            &&& post == EditorView { path: Some(path), ..pre }
            &&& effect == EffectView::Nothing
        },
        Message::FileSaved(Err(error)) => {
            &&& post == EditorView { last_error: Some(error), ..pre }
            &&& effect == EffectView::Nothing
        },
    }
}

impl Message {
    /// Whether the message puts a new document in the place of the old one.
    pub fn replaces_document(&self) -> (replaces: bool)
        ensures
            replaces == replaces_document(*self),
    {
        match self {
            Message::New => true,
            Message::FileOpened(Ok(_)) => true,
            _ => false,
        }
    }
}

impl Editor {
    /// The editor at start: a new, empty document, and the request to load the
    /// file at `bootstrap` into it.
    pub fn new(bootstrap: PathBuf) -> (start: (Editor, Effect))
        ensures
            start.0@ == initial(),
            start.1@ == EffectView::Load(bootstrap),
    {
        let editor = Editor { path: None, content: Document::new(), error: None };
        (editor, Effect::Load(bootstrap))
    }

    /// The title of the editor's window.
    pub fn title(&self) -> (title: String)
        ensures
            title@ == "RMACS"@,
    {
        String::from_str("RMACS")
    }

    /// Applies a message to the editor and says what is to be done next.
    ///
    /// No message is refused and no error ends the editor: a failure is kept
    /// as the last error and the document stays as it was.
    pub fn update(&mut self, message: Message) -> (effect: Effect)
        ensures
            transition(old(self)@, message, final(self)@, effect@),
    {
        match message {
            Message::FileMenuBar(_) => Effect::Nothing,
            Message::Edit(edited) => {
                self.content.apply(edited);
                self.error = None;
                Effect::Nothing
            },
            Message::New => {
                self.path = None;
                self.content = Document::new();
                Effect::Nothing
            },
            Message::Open => Effect::PickFile,
            Message::FileOpened(Ok((path, content))) => {
                self.path = Some(path);
                self.content = Document::with_text(content);
                Effect::Nothing
            },
            Message::FileOpened(Err(error)) => {
                self.error = Some(error);
                Effect::Nothing
            },
            Message::Save => {
                let text = self.content.text();
                let path = match &self.path {
                    Some(path) => Some(clone_path(path)),
                    None => None,
                };
                Effect::Save { path, text }
            },
            Message::FileSaved(Ok(path)) => {
                self.path = Some(path);
                Effect::Nothing
            },
            Message::FileSaved(Err(error)) => {
                self.error = Some(error);
                Effect::Nothing
            },
        }
    }

    /// Where the document was loaded from or last saved to.
    pub fn path(&self) -> (path: Option<&PathBuf>)
        ensures
            match path {
                Some(path) => self@.path == Some(*path),
                None => self@.path is None,
            },
    {
        self.path.as_ref()
    }

    /// The document.
    pub fn document(&self) -> (document: &Document)
        ensures
            document@ == self@.buffer,
    {
        &self.content
    }

    /// The text of the document.
    pub fn text(&self) -> (text: String)
        ensures
            text@ == self@.buffer.text,
    {
        self.content.text()
    }

    /// The last failure of a file operation that no edit has followed.
    pub fn last_error(&self) -> (error: Option<Error>)
        ensures
            error == self@.last_error,
    {
        self.error
    }

    /// The text of the status bar: the last error, else the path of the
    /// document, else "New file".
    pub fn status(&self) -> (text: String)
        ensures
            text@ == status_text(self@.last_error, self@.path),
    {
        status_line(self.error, self.path.as_ref())
    }

    /// Which of its three texts the status bar shows.
    pub fn status_case(&self) -> (case: StatusCase)
        ensures
            case == status_case(self@.last_error, self@.path),
    {
        status_kind(self.error, self.path.as_ref())
    }

    /// The position of the cursor as the status bar shows it, line and column
    /// counted from one.
    pub fn position(&self) -> (label: String)
        ensures
            label@ == position_text(
                self@.buffer.cursor.line as nat,
                self@.buffer.cursor.column as nat,
            ),
    {
        let cursor = self.content.cursor();
        position_label(cursor.line, cursor.column)
    }

    /// The file extension by which the text is highlighted.
    pub fn extension(&self) -> (extension: String)
        ensures
            extension@ == extension_text(self@.path),
    {
        highlight_extension(self.path.as_ref())
    }
}

} // verus!
