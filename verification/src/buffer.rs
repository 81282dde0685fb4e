//! The text buffer: a tail-append sequence of characters. All editing happens
//! at the end of the content, so no cursor position is stored here.

use vstd::prelude::*;

verus! {

/// The editable text, possibly holding embedded newline characters.
pub struct TextBuffer {
    pub content: Vec<char>,
}

impl View for TextBuffer {
    type V = Seq<char>;

    open spec fn view(&self) -> Seq<char> {
        self.content@
    }
}

impl TextBuffer {
    /// A new, empty buffer.
    pub fn new() -> (b: TextBuffer)
        ensures
            b@ == Seq::<char>::empty(),
    {
        TextBuffer { content: Vec::new() }
    }

    /// Append one character to the tail. Always succeeds.
    pub fn append_char(&mut self, c: char)
        ensures
            final(self)@ == old(self)@.push(c),
    {
        self.content.push(c);
    }

    /// Append a newline character to the tail. Always succeeds.
    pub fn append_newline(&mut self)
        ensures
            final(self)@ == old(self)@.push('\n'),
    {
        self.content.push('\n');
    }

    /// Remove the last character if the buffer is non-empty; a no-op on an
    /// empty buffer, not an error.
    pub fn backspace(&mut self)
        ensures
            old(self)@.len() == 0 ==> final(self)@ == old(self)@,
            old(self)@.len() > 0 ==> final(self)@ == old(self)@.drop_last(),
    {
        self.content.pop();
    }
}

} // verus!
