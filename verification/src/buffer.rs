//! The buffer in which a commit message is written: a text and a cursor
//! between two of its characters.

use crate::text::string_of;
use vstd::prelude::*;

verus! {

/// A message buffer, as the contracts see it. The cursor counts the
/// characters that stand before it.
pub struct MessageView {
    pub text: Seq<char>,
    pub cursor: nat,
}

impl MessageView {
    /// The cursor stands inside the text or at its end.
    pub open spec fn wf(self) -> bool {
        self.cursor <= self.text.len()
    }

    /// The buffer without a character.
    pub open spec fn empty() -> MessageView {
        MessageView { text: Seq::empty(), cursor: 0 }
    }

    /// The buffer after a character was typed: it stands before the cursor.
    pub open spec fn insert(self, c: char) -> MessageView {
        MessageView { text: self.text.insert(self.cursor as int, c), cursor: self.cursor + 1 }
    }

    /// The buffer after a backspace: the character before the cursor is
    /// gone, if there was one.
    pub open spec fn backspace(self) -> MessageView {
        if self.cursor > 0 {
            MessageView {
                text: self.text.remove(self.cursor - 1),
                cursor: (self.cursor - 1) as nat,
            }
        } else {
            self
        }
    }

    /// The buffer with the cursor one character to the left, if it can go.
    pub open spec fn left(self) -> MessageView {
        if self.cursor > 0 {
            MessageView { text: self.text, cursor: (self.cursor - 1) as nat }
        } else {
            self
        }
    }

    /// The buffer with the cursor one character to the right, if it can go.
    pub open spec fn right(self) -> MessageView {
        if self.cursor < self.text.len() {
            MessageView { text: self.text, cursor: self.cursor + 1 }
        } else {
            self
        }
    }

    /// The buffer after an edit.
    pub open spec fn apply(self, edit: Edit) -> MessageView {
        match edit {
            Edit::Insert(c) => self.insert(c),
            Edit::Backspace => self.backspace(),
            Edit::Left => self.left(),
            Edit::Right => self.right(),
        }
    }
}

/// One edit of the buffer.
#[derive(Debug, Clone, Copy, PartialEq, Eq, Structural)]
pub enum Edit {
    /// Type a character at the cursor.
    Insert(char),
    /// Delete the character before the cursor.
    Backspace,
    /// Move the cursor one character to the left.
    Left,
    /// Move the cursor one character to the right.
    Right,
}

/// The text of a commit message while it is written.
#[derive(Debug, Clone, PartialEq, Eq)]
pub struct MessageBuffer {
    chars: Vec<char>,
    cursor: usize,
}

impl View for MessageBuffer {
    type V = MessageView;

    closed spec fn view(&self) -> MessageView {
        MessageView { text: self.chars@, cursor: self.cursor as nat }
    }
}

impl MessageBuffer {
    /// An empty buffer.
    pub fn new() -> (b: MessageBuffer)
        ensures
            b@ == MessageView::empty(),
    {
        MessageBuffer { chars: Vec::new(), cursor: 0 }
    }

    /// Whether the cursor stands inside the text, as it does in every
    /// buffer that the functions of this type have made.
    pub fn is_wf(&self) -> (b: bool)
        ensures
            b == self@.wf(),
    {
        self.cursor <= self.chars.len()
    }

    /// Types a character at the cursor.
    pub fn insert(&mut self, c: char)
        requires
            old(self)@.wf(),
        ensures
            final(self)@ == old(self)@.insert(c),
    {
        self.chars.insert(self.cursor, c);
        assert(self.cursor < self.chars.len());
        self.cursor += 1;
    }

    /// Deletes the character before the cursor, if there is one.
    pub fn backspace(&mut self)
        requires
            old(self)@.wf(),
        ensures
            final(self)@ == old(self)@.backspace(),
    {
        if self.cursor > 0 {
            self.cursor -= 1;
            self.chars.remove(self.cursor);
        }
    }

    /// Moves the cursor one character to the left, if it can go.
    pub fn left(&mut self)
        ensures
            final(self)@ == old(self)@.left(),
    {
        if self.cursor > 0 {
            self.cursor -= 1;
        }
    }

    /// Moves the cursor one character to the right, if it can go.
    pub fn right(&mut self)
        ensures
            final(self)@ == old(self)@.right(),
    {
        if self.cursor < self.chars.len() {
            self.cursor += 1;
        }
    }

    /// Makes one edit.
    pub fn apply(&mut self, edit: Edit)
        requires
            old(self)@.wf(),
        ensures
            final(self)@ == old(self)@.apply(edit),
            final(self)@.wf(),
    {
        match edit {
            Edit::Insert(c) => self.insert(c),
            Edit::Backspace => self.backspace(),
            Edit::Left => self.left(),
            Edit::Right => self.right(),
        }
    }

    /// Empties the buffer.
    pub fn clear(&mut self)
        ensures
            final(self)@ == MessageView::empty(),
    {
        self.chars.clear();
        self.cursor = 0;
    }

    /// The number of characters before the cursor.
    pub fn cursor(&self) -> (c: usize)
        ensures
            c == self@.cursor,
    {
        self.cursor
    }

    /// Whether the buffer holds no character.
    pub fn is_empty(&self) -> (b: bool)
        ensures
            b == (self@.text.len() == 0),
    {
        self.chars.len() == 0
    }

    /// The characters of the message.
    pub fn chars(&self) -> (v: &Vec<char>)
        ensures
            v@ == self@.text,
    {
        &self.chars
    }

    /// The message as a string.
    pub fn text(&self) -> (s: String)
        ensures
            s@ == self@.text,
    {
        assert(self.chars@.subrange(0, self.chars@.len() as int) == self.chars@);
        string_of(&self.chars, 0, self.chars.len())
    }
}

/// Every edit keeps the cursor inside the text.
pub proof fn lemma_edits_keep_wf(b: MessageView, edit: Edit)
    requires
        b.wf(),
    ensures
        MessageView::empty().wf(),
        b.apply(edit).wf(),
{
}

/// A backspace undoes the typing of a character.
pub proof fn lemma_backspace_undoes_insert(b: MessageView, c: char)
    requires
        b.wf(),
    ensures
        b.insert(c).backspace() == b,
{
    assert(b.text.insert(b.cursor as int, c).remove(b.cursor as int) == b.text);
}

} // verus!
