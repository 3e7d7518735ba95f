//! The editor: a text buffer, a cursor on it, and the save prompt.

use crate::buffer::TextBuffer;
use crate::key::Key;
use crate::laws::{lemma_edit_keeps_cursor_in_text, lemma_edit_keeps_cursor_on_line};
use crate::lines::{lemma_break_count_bound, lemma_line_start_breaks, line_length, TERMINATOR};
use crate::model::{tick_remainder, EditorState, Mode, TICK_NANOS};
use vstd::prelude::*;
use vstd::string::StringExecFns;

verus! {

/// What a save has to write, and where.
#[derive(Clone, Debug, PartialEq, Eq)]
pub struct SaveRequest {
    /// The file to create or overwrite.
    pub filename: String,
    /// The whole document, to be written as it is.
    pub contents: String,
}

impl SaveRequest {
    /// The request saves the document of `state`, whole, under the name
    /// that `state` saves to.
    pub open spec fn saves(&self, state: EditorState) -> bool {
        &&& self.filename@ == state.save_name()
        &&& self.contents@ == state.text
    }
}

/// What the screen is to show.
#[derive(Clone, Debug, PartialEq, Eq)]
pub struct Frame {
    /// The pieces of text to print from the top left corner of a cleared
    /// screen, in order, each as it is.
    pub rows: Vec<String>,
    /// The column to put the cursor at.
    pub cursor_x: u16,
    /// The row to put the cursor at.
    pub cursor_y: u16,
}

impl Frame {
    /// The frame shows `state`.
    pub open spec fn shows(&self, state: EditorState) -> bool {
        &&& self.rows@.len() == state.screen_rows().len()
        &&& forall|i: int|
            0 <= i < self.rows@.len() ==> (#[trigger] self.rows@[i])@ == state.screen_rows()[i]
        &&& self.cursor_x == state.screen_column()
        &&& self.cursor_y == state.screen_row()
    }
}

/// What the front end is to do after a key.
#[derive(Clone, Debug, PartialEq, Eq)]
pub enum Action {
    /// Go on: show this frame and wait for the next key.
    Draw(Frame),
    /// Stop, after carrying out the save if there is one.
    Exit(Option<SaveRequest>),
}

/// How the front end is to wait for the next key.
#[derive(Clone, Copy, Debug, PartialEq, Eq)]
pub enum Wait {
    /// Until a key comes, however long that takes.
    ForKey,
    /// For a key or for this many nanoseconds, whichever comes first.
    UpTo(u64),
}

/// An editing session on one document.
pub struct Editor {
    buffer: TextBuffer,
    cursor_line: usize,
    cursor_col: usize,
    preferred_column: usize,
    filename: Option<String>,
    input_buffer: String,
    mode: Mode,
}

/// The characters of an optional file name.
pub open spec fn name_view(name: Option<String>) -> Option<Seq<char>> {
    match name {
        Some(name) => Some(name@),
        None => None,
    }
}

/// The characters of an optional text.
pub open spec fn text_view(text: Option<&str>) -> Option<Seq<char>> {
    match text {
        Some(text) => Some(text@),
        None => None,
    }
}

impl View for Editor {
    type V = EditorState;

    closed spec fn view(&self) -> EditorState {
        EditorState {
            text: self.buffer@,
            line: self.cursor_line as nat,
            column: self.cursor_col as nat,
            preferred_column: self.preferred_column as nat,
            filename: name_view(self.filename),
            input: self.input_buffer@,
            mode: self.mode,
        }
    }
}

impl Editor {
    /// The cursor stands in the text, and the text is of a length that a
    /// `usize` counts. Every session begins so and every key keeps it.
    pub open spec fn wf(&self) -> bool {
        &&& self@.cursor_in_text()
        &&& self@.text.len() <= usize::MAX
    }

    /// Begins a session on the file `filename`, or on a new document
    /// without one. `contents` is what the file held, if it could be read.
    pub fn open(filename: Option<String>, contents: Option<&str>) -> (editor: Editor)
        ensures
            editor@ == EditorState::opened(name_view(filename), text_view(contents)),
            editor.wf(),
            editor@.cursor_on_line(),
    {
        let buffer = match (&filename, contents) {
            (Some(_), Some(text)) => TextBuffer::from_str(text),
            _ => TextBuffer::new(),
        };
        Editor {
            buffer,
            cursor_line: 0,
            cursor_col: 0,
            preferred_column: 0,
            filename,
            input_buffer: String::new(),
            mode: Mode::Editing,
        }
    }

    /// Prepares a save: names the file and hands out the document to
    /// write to it. A document without a file name takes the name typed at
    /// the prompt, and keeps it.
    pub fn save(&mut self) -> (request: SaveRequest)
        requires
            old(self)@.can_save(),
        ensures
            final(self)@ == old(self)@.saved(),
            request.saves(old(self)@),
            old(self).wf() ==> final(self).wf(),
    {
        let filename = match &self.filename {
            Some(name) => name.clone(),
            None => self.input_buffer.clone(),
        };
        let contents = self.buffer.text();
        if self.filename.is_none() {
            self.filename = Some(filename.clone());
        }
        SaveRequest { filename, contents }
    }

    /// The document.
    pub fn buffer(&self) -> (buffer: &TextBuffer)
        ensures
            buffer@ == self@.text,
    {
        &self.buffer
    }

    /// The cursor's line.
    pub fn cursor_line(&self) -> (line: usize)
        ensures
            line == self@.line,
    {
        self.cursor_line
    }

    /// The cursor's column.
    pub fn cursor_col(&self) -> (column: usize)
        ensures
            column == self@.column,
    {
        self.cursor_col
    }

    /// The column that vertical moves aim for.
    pub fn preferred_column(&self) -> (column: usize)
        ensures
            column == self@.preferred_column,
    {
        self.preferred_column
    }

    /// The name of the document's file, if it has one.
    pub fn filename(&self) -> (name: Option<&str>)
        ensures
            text_view(name) == self@.filename,
    {
        match &self.filename {
            Some(name) => Some(name.as_str()),
            None => None,
        }
    }

    /// Whether the document has no file name yet.
    pub fn is_new_file(&self) -> (new: bool)
        ensures
            new == (self@.filename is None),
    {
        self.filename.is_none()
    }

    /// What has been typed at the save prompt.
    pub fn input_buffer(&self) -> (input: &str)
        ensures
            input@ == self@.input,
    {
        self.input_buffer.as_str()
    }

    /// The mode the session is in.
    pub fn mode(&self) -> (mode: Mode)
        ensures
            mode == self@.mode,
    {
        self.mode
    }

    /// Whether the session is over.
    pub fn should_quit(&self) -> (quit: bool)
        ensures
            quit == (self@.mode == Mode::Terminated),
    {
        match self.mode {
            Mode::Terminated => true,
            _ => false,
        }
    }

    /// Whether the save prompt is showing.
    pub fn show_save_prompt(&self) -> (prompt: bool)
        ensures
            prompt == (self@.mode == Mode::SavePrompt),
    {
        match self.mode {
            Mode::SavePrompt => true,
            _ => false,
        }
    }

    /// The cursor as (column, line).
    pub fn cursor_screen_position(&self) -> (position: (usize, usize))
        ensures
            position.0 == self@.column,
            position.1 == self@.line,
    {
        (self.cursor_col, self.cursor_line)
    }

    /// The cursor's absolute character index.
    pub fn cursor_char_index(&self) -> (index: usize)
        requires
            self.wf(),
        ensures
            index == self@.cursor_index(),
    {
        self.buffer.line_to_char_index(self.cursor_line) + self.cursor_col
    }

    /// Number of content characters of a line, its terminator not counted;
    /// 0 when there is no such line.
    pub fn line_len(&self, line_idx: usize) -> (len: usize)
        ensures
            len == line_length(self@.text, line_idx as nat),
    {
        self.buffer.line_length(line_idx)
    }

    /// Handles a key pressed at the save prompt. The result is the save
    /// to carry out, if the key asks for one.
    pub fn handle_prompt_key(&mut self, key: Key) -> (request: Option<SaveRequest>)
        ensures
            final(self)@ == old(self)@.prompt(key),
            request is Some <==> old(self)@.saves_on(key),
            request matches Some(r) ==> r.saves(old(self)@),
            old(self).wf() ==> final(self).wf(),
    {
        match key {
            Key::Char(c) => {
                if self.filename.is_none() {
                    self.input_buffer.push(c);
                }
                None
            },
            Key::Backspace => {
                if !self.input_buffer.as_str().is_empty() {
                    self.input_buffer.pop();
                }
                None
            },
            Key::Enter => {
                let request = if !self.input_buffer.as_str().is_empty() || self.filename.is_some() {
                    Some(self.save())
                } else {
                    None
                };
                self.mode = Mode::Terminated;
                request
            },
            Key::Esc => {
                self.mode = Mode::Terminated;
                None
            },
            _ => None,
        }
    }

    /// Handles a key pressed in editing mode.
    pub fn handle_editor_key(&mut self, key: Key)
        requires
            old(self).wf(),
        ensures
            final(self)@ == old(self)@.edit(key),
            final(self).wf(),
            old(self)@.cursor_on_line() && key != Key::Char(TERMINATOR)
                ==> final(self)@.cursor_on_line(),
    {
        proof {
            lemma_edit_keeps_cursor_in_text(self@, key);
            if self@.cursor_on_line() && key != Key::Char(TERMINATOR) {
                lemma_edit_keeps_cursor_on_line(self@, key);
            }
        }
        match key {
            Key::Enter => {
                let index: usize = self.cursor_char_index();
                self.buffer.insert(index, "\n");
                proof {
                    reveal_strlit("\n");
                    assert(self.buffer@ =~= old(self)@.text.insert(index as int, TERMINATOR));
                    lemma_break_count_bound(self.buffer@);
                }
                self.cursor_line += 1;
                self.cursor_col = 0;
                self.preferred_column = self.cursor_col;
            },
            Key::Backspace => {
                if self.cursor_col > 0 {
                    let index: usize = self.cursor_char_index();
                    self.buffer.remove(index - 1, index);
                    self.cursor_col -= 1;
                    self.preferred_column = self.cursor_col;
                } else if self.cursor_line > 0 {
                    let index: usize = self.cursor_char_index();
                    proof {
                        lemma_line_start_breaks(self@.text, self@.line);
                    }
                    self.buffer.remove(index - 1, index);
                    self.cursor_line -= 1;
                    self.cursor_col = self.line_len(self.cursor_line);
                    self.preferred_column = self.cursor_col;
                }
            },
            Key::Esc => {
                self.mode = Mode::SavePrompt;
                self.input_buffer.clear();
            },
            Key::Char(c) => {
                let index: usize = self.cursor_char_index();
                self.buffer.insert_char(index, c);
                self.cursor_col += 1;
                self.preferred_column = self.cursor_col;
            },
            Key::Left => {
                if self.cursor_col > 0 {
                    self.cursor_col -= 1;
                    self.preferred_column = self.cursor_col;
                } else if self.cursor_line > 0 {
                    self.cursor_line -= 1;
                    self.cursor_col = self.line_len(self.cursor_line);
                    self.preferred_column = self.cursor_col;
                }
            },
            Key::Right => {
                let line_len: usize = self.line_len(self.cursor_line);
                let line_count: usize = self.buffer.line_count();
                if self.cursor_col < line_len {
                    self.cursor_col += 1;
                    self.preferred_column = self.cursor_col;
                } else if self.cursor_line + 1 < line_count {
                    self.cursor_line += 1;
                    self.cursor_col = 0;
                    self.preferred_column = self.cursor_col;
                }
            },
            Key::Up => {
                if self.cursor_line > 0 {
                    self.cursor_line -= 1;
                    let line_len: usize = self.line_len(self.cursor_line);
                    self.cursor_col = if self.preferred_column <= line_len {
                        self.preferred_column
                    } else {
                        line_len
                    };
                }
            },
            Key::Down => {
                let line_count: usize = self.buffer.line_count();
                if self.cursor_line + 1 < line_count {
                    self.cursor_line += 1;
                    let line_len: usize = self.line_len(self.cursor_line);
                    self.cursor_col = if self.preferred_column <= line_len {
                        self.preferred_column
                    } else {
                        line_len
                    };
                }
            },
            Key::Other => {},
        }
    }

    /// The frame that shows the session as it stands.
    pub fn draw(&self) -> (frame: Frame)
        ensures
            frame.shows(self@),
    {
        match self.mode {
            Mode::SavePrompt => {
                let mut first = "Filename: ".to_owned();
                first.append(self.input_buffer.as_str());
                let mut rows: Vec<String> = Vec::new();
                rows.push(first);
                rows.push("\nPress Enter to save or Esc to discard changes.\n".to_owned());
                let typed: usize = self.input_buffer.len() % 0x1_0000;
                proof {
                    reveal_strlit("Filename: ");
                }
                Frame { rows, cursor_x: ((typed + 10) % 0x1_0000) as u16, cursor_y: 0 }
            },
            _ => {
                let position: (usize, usize) = self.cursor_screen_position();
                Frame {
                    rows: self.buffer.lines(),
                    cursor_x: (position.0 % 0x1_0000) as u16,
                    cursor_y: (position.1 % 0x1_0000) as u16,
                }
            },
        }
    }

    /// How to wait for the next key when `elapsed_nanos` nanoseconds have
    /// passed since the last tick: at the save prompt until a key comes,
    /// otherwise for what is left of the tick.
    pub fn wait(&self, elapsed_nanos: u128) -> (wait: Wait)
        ensures
            self@.mode == Mode::SavePrompt ==> wait == Wait::ForKey,
            self@.mode != Mode::SavePrompt ==> wait == Wait::UpTo(
                tick_remainder(elapsed_nanos as nat) as u64,
            ),
    {
        match self.mode {
            Mode::SavePrompt => Wait::ForKey,
            _ => if elapsed_nanos >= TICK_NANOS as u128 {
                Wait::UpTo(0)
            } else {
                Wait::UpTo(TICK_NANOS - elapsed_nanos as u64)
            },
        }
    }

    /// Whether a tick is over when `elapsed_nanos` nanoseconds have passed
    /// since it began, so that the next one begins.
    pub fn tick_over(elapsed_nanos: u128) -> (over: bool)
        ensures
            over == (tick_remainder(elapsed_nanos as nat) == 0),
    {
        elapsed_nanos >= TICK_NANOS as u128
    }

    /// Handles what came of one wait, a key or none, and says what to do
    /// next: stop once the session is over, else show the new frame.
    pub fn step(&mut self, key: Option<Key>) -> (action: Action)
        requires
            old(self).wf(),
        ensures
            final(self)@ == match key {
                Some(key) => old(self)@.step(key),
                None => old(self)@,
            },
            final(self).wf(),
            final(self)@.mode == Mode::Terminated <==> action is Exit,
            action matches Action::Draw(frame) ==> frame.shows(final(self)@),
            action matches Action::Exit(request) ==> {
                &&& request is Some <==> match key {
                    Some(key) => old(self)@.step_saves(key),
                    None => false,
                }
                &&& request matches Some(r) ==> r.saves(old(self)@)
            },
    {
        let request = match key {
            Some(key) => self.handle_key(key),
            None => None,
        };
        match self.mode {
            Mode::Terminated => Action::Exit(request),
            _ => Action::Draw(self.draw()),
        }
    }

    /// Handles a key in whatever mode the session is in; once it is over,
    /// keys do nothing. The result is the save to carry out, if the key
    /// asks for one.
    pub fn handle_key(&mut self, key: Key) -> (request: Option<SaveRequest>)
        requires
            old(self).wf(),
        ensures
            final(self)@ == old(self)@.step(key),
            final(self).wf(),
            request is Some <==> old(self)@.step_saves(key),
            request matches Some(r) ==> r.saves(old(self)@),
    {
        match self.mode {
            Mode::Editing => {
                self.handle_editor_key(key);
                None
            },
            Mode::SavePrompt => self.handle_prompt_key(key),
            Mode::Terminated => None,
        }
    }
}

} // verus!
