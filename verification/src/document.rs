//! The document being edited: its text and the position of the cursor.
//!
//! The text widget edits a buffer of its own, beside the editor. Whenever it
//! has performed an action on that buffer it reports what came of it: where
//! the cursor stands, and, if the action was an edit, the lines that the buffer
//! now holds. A document that nothing has edited keeps the text it was made
//! from, character for character; an edited one holds its lines joined with
//! line feeds.

use vstd::prelude::*;

verus! {

/// Where the cursor stands: the line and the column within it, both counted
/// from zero.
#[derive(Debug, Clone, Copy, PartialEq, Eq)]
pub struct Cursor {
    pub line: usize,
    pub column: usize,
}

/// What has come of an action that the text widget performed on its buffer.
#[derive(Debug, Clone, PartialEq, Eq)]
pub enum Edited {
    /// The action moved the cursor, changed the selection or scrolled; the
    /// text is as it was.
    Moved {
        /// Where the cursor stands now.
        cursor: Cursor,
    },
    /// The action was an edit.
    Changed {
        /// The lines that the buffer holds now, in order.
        lines: Vec<String>,
        /// Where the cursor stands now.
        cursor: Cursor,
    },
}

/// The lines of a text joined with a line feed between each two, and none
/// after the last.
pub open spec fn join_lines(lines: Seq<Seq<char>>) -> Seq<char>
    decreases lines.len(),
{
    if lines.len() == 0 {
        Seq::empty()
    } else if lines.len() == 1 {
        lines[0]
    } else {
        join_lines(lines.drop_last()) + seq!['\n'] + lines.last()
    }
}

/// What a document is, to its users.
pub struct DocumentView {
    /// The text of the document: what a save writes.
    pub text: Seq<char>,
    /// Where the cursor stands.
    pub cursor: Cursor,
}

/// The view of a document that was made from `text` and not touched since:
/// the text is exact and the cursor stands at the start.
pub open spec fn fresh(text: Seq<char>) -> DocumentView {
    DocumentView { text, cursor: Cursor { line: 0, column: 0 } }
}

/// The view of a document after the text widget has reported `edited`: the
/// cursor is where the widget says, and the text is the reported lines joined,
/// or the text as it was where the action edited nothing.
pub open spec fn after(document: DocumentView, edited: Edited) -> DocumentView {
    match edited {
        Edited::Moved { cursor } => DocumentView { text: document.text, cursor },
        Edited::Changed { lines, cursor } => DocumentView {
            text: join_lines(lines.deep_view()),
            cursor,
        },
    }
}

/// The text under edit and the position of the cursor in it.
pub struct Document {
    text: String,
    cursor: Cursor,
}

impl View for Document {
    type V = DocumentView;

    closed spec fn view(&self) -> DocumentView {
        DocumentView { text: self.text@, cursor: self.cursor }
    }
}

/// Joins lines with line feeds.
pub fn join(lines: &Vec<String>) -> (text: String)
    ensures
        text@ == join_lines(lines.deep_view()),
{
    let ghost all = lines.deep_view();
    let mut text = String::new();
    let mut index: usize = 0;
    while index < lines.len()
        invariant
            index <= lines.len(),
            all == lines.deep_view(),
            all.len() == lines.len(),
            text@ == join_lines(all.subrange(0, index as int)),
        decreases lines.len() - index,
    {
        let ghost before = text@;
        if index > 0 {
            proof {
                reveal_strlit("\n");
            }
            text.append("\n");
            assert(text@ == before + seq!['\n']);
        }
        text.append(lines[index].as_str());
        proof {
            let taken = all.subrange(0, index + 1);
            assert(taken.drop_last() == all.subrange(0, index as int));
            assert(taken.last() == all[index as int]);
            assert(all[index as int] == lines[index as int]@);
        }
        index += 1;
    }
    assert(all.subrange(0, lines.len() as int) == all);
    text
}

impl Document {
    /// An empty document.
    pub fn new() -> (document: Document)
        ensures
            document@ == fresh(Seq::empty()),
    {
        Document { text: String::new(), cursor: Cursor { line: 0, column: 0 } }
    }

    /// A document that holds `text`, exactly.
    pub fn with_text(text: String) -> (document: Document)
        ensures
            document@ == fresh(text@),
    {
        Document { text, cursor: Cursor { line: 0, column: 0 } }
    }

    /// Takes in what the text widget reports of an action it has performed.
    pub fn apply(&mut self, edited: Edited)
        ensures
            final(self)@ == after(old(self)@, edited),
    {
        match edited {
            Edited::Moved { cursor } => {
                self.cursor = cursor;
            },
            Edited::Changed { lines, cursor } => {
                self.text = join(&lines);
                self.cursor = cursor;
            },
        }
    }

    /// The text of the document.
    pub fn text(&self) -> (text: String)
        ensures
            text@ == self@.text,
    {
        self.text.clone()
    }

    /// Where the cursor stands.
    pub fn cursor(&self) -> (cursor: Cursor)
        ensures
            cursor == self@.cursor,
    {
        self.cursor
    }
}

} // verus!
