//! The text buffer: a document held in a rope, addressed by character
//! index and by line.

use crate::lines::{
    lemma_line_end_bounds, line_count, line_length, line_start, line_text, TERMINATOR,
};
use crate::rope::{rope_remove, rope_text, rope_to_string, slice_to_string};
use ropey::Rope;
use vstd::prelude::*;

verus! {

/// A mutable document. Its view is the sequence of its characters.
pub struct TextBuffer {
    rope: Rope,
}

impl View for TextBuffer {
    type V = Seq<char>;

    closed spec fn view(&self) -> Seq<char> {
        rope_text(self.rope)
    }
}

impl TextBuffer {
    /// An empty document.
    pub fn new() -> (buffer: Self)
        ensures
            buffer@ == Seq::<char>::empty(),
    {
        TextBuffer { rope: Rope::new() }
    }

    /// A document holding the characters of `text`.
    pub fn from_str(text: &str) -> (buffer: Self)
        ensures
            buffer@ == text@,
            buffer@.len() <= usize::MAX,
    {
        TextBuffer { rope: Rope::from_str(text) }
    }

    /// Total number of characters.
    pub fn char_count(&self) -> (n: usize)
        ensures
            n == self@.len(),
    {
        self.rope.len_chars()
    }

    /// Number of lines.
    pub fn line_count(&self) -> (n: usize)
        ensures
            n == line_count(self@),
    {
        self.rope.len_lines()
    }

    /// Character index at which `line` begins. `line` may be the index one
    /// past the last line, which gives the number of characters.
    pub fn line_to_char_index(&self, line: usize) -> (idx: usize)
        requires
            line <= line_count(self@),
        ensures
            idx == line_start(self@, line as nat),
    {
        self.rope.line_to_char(line)
    }

    /// Number of content characters of `line`, its terminator not counted;
    /// 0 when there is no such line.
    pub fn line_length(&self, line: usize) -> (n: usize)
        ensures
            n == line_length(self@, line as nat),
    {
        if line >= self.rope.len_lines() {
            return 0;
        }
        let slice = self.rope.line(line);
        let len: usize = slice.len_chars();
        proof {
            lemma_line_end_bounds(self@, line as nat);
        }
        if len > 0 && slice.char(len - 1) == TERMINATOR {
            len - 1
        } else {
            len
        }
    }

    /// Inserts `ch` at character index `char_idx`.
    pub fn insert_char(&mut self, char_idx: usize, ch: char)
        requires
            char_idx <= old(self)@.len(),
        ensures
            final(self)@ == old(self)@.insert(char_idx as int, ch),
            final(self)@.len() <= usize::MAX,
    {
        self.rope.insert_char(char_idx, ch);
    }

    /// Inserts the characters of `text` at character index `char_idx`.
    pub fn insert(&mut self, char_idx: usize, text: &str)
        requires
            char_idx <= old(self)@.len(),
        ensures
            final(self)@ == old(self)@.take(char_idx as int) + text@ + old(self)@.skip(
                char_idx as int,
            ),
            final(self)@.len() <= usize::MAX,
    {
        self.rope.insert(char_idx, text);
    }

    /// Removes the characters from index `start` up to, not including, `end`.
    pub fn remove(&mut self, start: usize, end: usize)
        requires
            start <= end <= old(self)@.len(),
        ensures
            final(self)@ == old(self)@.take(start as int) + old(self)@.skip(end as int),
    {
        rope_remove(&mut self.rope, start, end);
    }

    /// The raw text of `line`, its terminator included where it has one.
    pub fn line(&self, line: usize) -> (text: String)
        requires
            line < line_count(self@),
        ensures
            text@ == line_text(self@, line as nat),
    {
        slice_to_string(self.rope.line(line))
    }

    /// The raw text of every line, in order.
    pub fn lines(&self) -> (rows: Vec<String>)
        ensures
            rows@.len() == line_count(self@),
            forall|i: int| 0 <= i < rows@.len() ==> (#[trigger] rows@[i])@ == line_text(self@, i as nat),
    {
        let count: usize = self.rope.len_lines();
        let mut rows: Vec<String> = Vec::new();
        let mut i: usize = 0;
        while i < count
            invariant
                count == line_count(self@),
                i <= count,
                rows@.len() == i,
                forall|k: int| 0 <= k < i ==> (#[trigger] rows@[k])@ == line_text(self@, k as nat),
            decreases count - i,
        {
            rows.push(slice_to_string(self.rope.line(i)));
            i += 1;
        }
        rows
    }

    /// The whole document as one string.
    pub fn text(&self) -> (text: String)
        ensures
            text@ == self@,
    {
        rope_to_string(&self.rope)
    }
}

} // verus!
