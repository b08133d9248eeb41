//! What holds of the editor across transitions, proved from the transition
//! relation and the storage adapter's decisions.

use crate::application::{
    initial, replaces_document, transition, EditorView, EffectView, Message,
};
use crate::document::{after, fresh, join_lines, Cursor, Edited};
use crate::filesystem::{pick_result, save_step, Error, SaveStep};
use std::path::PathBuf;
use vstd::prelude::*;

verus! {

/// After an edit there is no last error, whatever the state before it and
/// whatever the action was; so after each edit of a sequence of edits. The
/// path stays, the document is as the text widget reported it, and nothing is
/// asked for.
pub proof fn edit_clears_last_error(
    pre: EditorView,
    edited: Edited,
    post: EditorView,
    effect: EffectView,
)
    requires
        transition(pre, Message::Edit(edited), post, effect),
    ensures
        post.last_error is None,
        post.path == pre.path,
        post.buffer == after(pre.buffer, edited),
        effect == EffectView::Nothing,
{
}

/// An action that edits nothing leaves the text as it is and puts the cursor
/// where the text widget reports it; after an edit the text is the reported
/// lines joined with line feeds.
pub proof fn edit_sets_text_and_cursor(
    pre: EditorView,
    edited: Edited,
    post: EditorView,
    effect: EffectView,
)
    requires
        transition(pre, Message::Edit(edited), post, effect),
    ensures
        edited matches Edited::Moved { cursor } ==> post.buffer.text == pre.buffer.text
            && post.buffer.cursor == cursor,
        edited matches Edited::Changed { lines, cursor } ==> post.buffer.text == join_lines(
            lines.deep_view(),
        ) && post.buffer.cursor == cursor,
{
}

/// Opening a file sets the path to the file's path and the text to the file's
/// content, character for character; a save that follows at once asks for
/// exactly that content to be written to exactly that path, with no dialog.
pub proof fn open_then_save_round_trips(
    pre: EditorView,
    path: PathBuf,
    content: String,
    opened: EditorView,
    effect: EffectView,
    saved: EditorView,
    request: EffectView,
)
    requires
        transition(pre, Message::FileOpened(Ok((path, content))), opened, effect),
        transition(opened, Message::Save, saved, request),
    ensures
        opened.path == Some(path),
        opened.buffer.text == content@,
        request == (EffectView::Save { path: Some(path), text: content@ }),
        save_step(Some(path)) == SaveStep::Write(path),
        saved == opened,
{
}

/// The round trip holds as well where the cursor was moved between the load
/// and the save: an action that edits nothing changes nothing of what is
/// written.
pub proof fn moving_the_cursor_keeps_the_round_trip(
    pre: EditorView,
    path: PathBuf,
    content: String,
    opened: EditorView,
    effect: EffectView,
    cursor: Cursor,
    moved: EditorView,
    nothing: EffectView,
    saved: EditorView,
    request: EffectView,
)
    requires
        transition(pre, Message::FileOpened(Ok((path, content))), opened, effect),
        transition(opened, Message::Edit(Edited::Moved { cursor }), moved, nothing),
        transition(moved, Message::Save, saved, request),
    ensures
        request == (EffectView::Save { path: Some(path), text: content@ }),
{
}

/// Saving a document that has no path asks for the save dialog before
/// anything is written; if the user closes the dialog, the editor is told so,
/// its last error is `DialogClosed` and it still has no path.
pub proof fn save_without_path_asks_first(
    pre: EditorView,
    asked: EditorView,
    request: EffectView,
    post: EditorView,
    effect: EffectView,
)
    requires
        pre.path is None,
        transition(pre, Message::Save, asked, request),
        transition(asked, Message::FileSaved(pick_result(None)), post, effect),
    ensures
        request == (EffectView::Save { path: None, text: pre.buffer.text }),
        save_step(None) == SaveStep::Choose,
        pick_result(None) == Err::<PathBuf, Error>(Error::DialogClosed),
        post.last_error == Some(Error::DialogClosed),
        post.path is None,
        post.buffer == pre.buffer,
{
}

/// Saving a document that has a path asks for its text to be written to that
/// path, and the save starts with the write: no dialog is shown.
pub proof fn save_with_path_writes_directly(
    pre: EditorView,
    path: PathBuf,
    post: EditorView,
    request: EffectView,
)
    requires
        pre.path == Some(path),
        transition(pre, Message::Save, post, request),
    ensures
        request == (EffectView::Save { path: Some(path), text: pre.buffer.text }),
        save_step(Some(path)) == SaveStep::Write(path),
        save_step(Some(path)) != SaveStep::Choose,
        post == pre,
{
}

/// `New` leaves a document without a path and with an empty text, whatever
/// the state before it; the last error stays.
pub proof fn new_resets_path_and_text(pre: EditorView, post: EditorView, effect: EffectView)
    requires
        transition(pre, Message::New, post, effect),
    ensures
        post.path is None,
        post.buffer.text == Seq::<char>::empty(),
        post.buffer == initial().buffer,
        post.last_error == pre.last_error,
        effect == EffectView::Nothing,
{
}

/// A failed load or save leaves the document and its path as they were and
/// records the error.
pub proof fn failure_keeps_document(
    pre: EditorView,
    message: Message,
    error: Error,
    post: EditorView,
    effect: EffectView,
)
    requires
        message == Message::FileOpened(Err(error)) || message == Message::FileSaved(Err(error)),
        transition(pre, message, post, effect),
    ensures
        post.buffer == pre.buffer,
        post.path == pre.path,
        post.last_error == Some(error),
        effect == EffectView::Nothing,
{
}

/// The path changes only where a load or a save has succeeded, to the path
/// that was loaded or written, and where `New` takes it away.
pub proof fn path_follows_files(
    pre: EditorView,
    message: Message,
    post: EditorView,
    effect: EffectView,
)
    requires
        transition(pre, message, post, effect),
    ensures
        post.path == match message {
            Message::New => None,
            Message::FileOpened(Ok((path, _))) => Some(path),
            Message::FileSaved(Ok(path)) => Some(path),
            _ => pre.path,
        },
{
}

/// Each part of the state changes on its own messages only: the path on
/// `New` and on a load or save that succeeded, the document on an edit, on
/// `New` and on a load that succeeded, the last error on an edit and on a load
/// or save that failed. `Open`, `Save` and an entry of the menu bar leave the
/// editor as it was.
pub proof fn each_field_has_its_messages(
    pre: EditorView,
    message: Message,
    post: EditorView,
    effect: EffectView,
)
    requires
        transition(pre, message, post, effect),
    ensures
        post.path != pre.path ==> message is New || message matches Message::FileOpened(Ok(_))
            || message matches Message::FileSaved(Ok(_)),
        post.buffer != pre.buffer ==> message is Edit || replaces_document(message),
        post.last_error != pre.last_error ==> message is Edit || message matches Message::FileOpened(
            Err(_),
        ) || message matches Message::FileSaved(Err(_)),
        message is Open || message is Save || message is FileMenuBar ==> post == pre,
{
}

/// Only `Open` and `Save` ask anything of the surroundings: the one for a file
/// to be chosen and loaded, the other for the text to be written.
pub proof fn only_open_and_save_ask_for_work(
    pre: EditorView,
    message: Message,
    post: EditorView,
    effect: EffectView,
)
    requires
        transition(pre, message, post, effect),
    ensures
        effect != EffectView::Nothing <==> message is Open || message is Save,
        message is Open ==> effect == EffectView::PickFile,
        message is Save ==> effect == (EffectView::Save { path: pre.path, text: pre.buffer.text }),
{
}

/// A message that replaces the document leaves one whose text is exact and
/// whose cursor stands at the start: the empty text after `New`, the content
/// of the file after a load.
pub proof fn a_replaced_document_is_fresh(
    pre: EditorView,
    message: Message,
    post: EditorView,
    effect: EffectView,
)
    requires
        replaces_document(message),
        transition(pre, message, post, effect),
    ensures
        post.buffer.cursor == (Cursor { line: 0, column: 0 }),
        message is New ==> post.buffer == fresh(Seq::empty()),
        message matches Message::FileOpened(Ok((_, content))) ==> post.buffer == fresh(content@),
{
}

} // verus!
