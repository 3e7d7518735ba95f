//! The editor as a mathematical state machine: its state, and what each
//! key does to it in each mode.

use crate::key::Key;
use crate::lines::{line_count, line_length, line_start, line_text, TERMINATOR};
use vstd::prelude::*;
use vstd::utf8::encode_utf8;

verus! {

/// The label the save prompt shows before the name being typed.
pub open spec fn prompt_label() -> Seq<char> {
    "Filename: "@
}

/// What the save prompt shows under the name being typed.
pub open spec fn prompt_hint() -> Seq<char> {
    "\nPress Enter to save or Esc to discard changes.\n"@
}

/// The width of a screen coordinate: positions wrap at this number.
pub open spec fn screen_span() -> nat {
    0x1_0000
}

/// The time between two redraws while no key comes, in nanoseconds.
pub const TICK_NANOS: u64 = 200_000_000;

/// The time left of a tick of which `elapsed` nanoseconds have passed.
pub open spec fn tick_remainder(elapsed: nat) -> nat {
    if elapsed >= TICK_NANOS {
        0
    } else {
        (TICK_NANOS - elapsed) as nat
    }
}

/// The smaller of two numbers.
pub open spec fn lesser(a: nat, b: nat) -> nat {
    if a <= b {
        a
    } else {
        b
    }
}

/// What the editor is doing.
#[derive(Clone, Copy, Debug, PartialEq, Eq)]
pub enum Mode {
    /// Keys edit the document and move the cursor.
    Editing,
    /// Keys build the name of the file to save to.
    SavePrompt,
    /// The session is over; keys do nothing.
    Terminated,
}

/// The state of an editor.
pub struct EditorState {
    /// The document.
    pub text: Seq<char>,
    /// The cursor's line.
    pub line: nat,
    /// The cursor's column: its distance from the start of its line.
    pub column: nat,
    /// The column that vertical moves aim for.
    pub preferred_column: nat,
    /// The name of the document's file, once it has one.
    pub filename: Option<Seq<char>>,
    /// What has been typed at the save prompt.
    pub input: Seq<char>,
    /// What the editor is doing.
    pub mode: Mode,
}

impl EditorState {
    /// The state a session begins in. `contents` is what was read from the
    /// named file, if it could be read; without a name, or without
    /// contents, the document starts empty.
    pub open spec fn opened(filename: Option<Seq<char>>, contents: Option<Seq<char>>) -> EditorState {
        EditorState {
            text: match (filename, contents) {
                (Some(_), Some(text)) => text,
                _ => Seq::empty(),
            },
            line: 0,
            column: 0,
            preferred_column: 0,
            filename,
            input: Seq::empty(),
            mode: Mode::Editing,
        }
    }

    /// The cursor's absolute character index.
    pub open spec fn cursor_index(self) -> nat {
        line_start(self.text, self.line) + self.column
    }

    /// The cursor stands on an existing line, at an index of the text or at
    /// its end. Every operation needs this and keeps it.
    pub open spec fn cursor_in_text(self) -> bool {
        &&& self.line < line_count(self.text)
        &&& self.cursor_index() <= self.text.len()
    }

    /// The cursor stands on an existing line, within its content or right
    /// after it.
    pub open spec fn cursor_on_line(self) -> bool {
        &&& self.line < line_count(self.text)
        &&& self.column <= line_length(self.text, self.line)
    }

    /// The cursor placed at (`line`, `column`) by a horizontal move or an
    /// edit, which also sets the preferred column.
    pub open spec fn with_cursor(self, line: nat, column: nat) -> EditorState {
        EditorState { line, column, preferred_column: column, ..self }
    }

    /// The cursor placed on `line` by a vertical move: at the preferred
    /// column, or at the end of the line where the line is shorter. The
    /// preferred column stays.
    pub open spec fn on_line(self, line: nat) -> EditorState {
        EditorState {
            line,
            column: lesser(self.preferred_column, line_length(self.text, line)),
            ..self
        }
    }

    /// The state after `key` in editing mode.
    pub open spec fn edit(self, key: Key) -> EditorState {
        let index = self.cursor_index() as int;
        match key {
            Key::Char(c) => EditorState { text: self.text.insert(index, c), ..self }.with_cursor(
                self.line,
                self.column + 1,
            ),
            Key::Enter => EditorState {
                text: self.text.insert(index, TERMINATOR),
                ..self
            }.with_cursor(self.line + 1, 0),
            Key::Backspace => if self.column > 0 {
                EditorState { text: self.text.remove(index - 1), ..self }.with_cursor(
                    self.line,
                    (self.column - 1) as nat,
                )
            } else if self.line > 0 {
                let joined = self.text.remove(index - 1);
                let line = (self.line - 1) as nat;
                EditorState { text: joined, ..self }.with_cursor(line, line_length(joined, line))
            } else {
                self
            },
            Key::Left => if self.column > 0 {
                self.with_cursor(self.line, (self.column - 1) as nat)
            } else if self.line > 0 {
                let line = (self.line - 1) as nat;
                self.with_cursor(line, line_length(self.text, line))
            } else {
                self
            },
            Key::Right => if self.column < line_length(self.text, self.line) {
                self.with_cursor(self.line, self.column + 1)
            } else if self.line + 1 < line_count(self.text) {
                self.with_cursor(self.line + 1, 0)
            } else {
                self
            },
            Key::Up => if self.line > 0 {
                self.on_line((self.line - 1) as nat)
            } else {
                self
            },
            Key::Down => if self.line + 1 < line_count(self.text) {
                self.on_line(self.line + 1)
            } else {
                self
            },
            Key::Esc => EditorState { mode: Mode::SavePrompt, input: Seq::empty(), ..self },
            Key::Other => self,
        }
    }

    /// A save can be made: the document has a file name, or one has been
    /// typed.
    pub open spec fn can_save(self) -> bool {
        self.filename is Some || self.input.len() > 0
    }

    /// The name a save writes to: the document's file name, or, while it
    /// has none, what has been typed at the prompt.
    pub open spec fn save_name(self) -> Seq<char> {
        match self.filename {
            Some(name) => name,
            None => self.input,
        }
    }

    /// The state after a save: the name written to is the document's file
    /// name from then on.
    pub open spec fn saved(self) -> EditorState {
        EditorState { filename: Some(self.save_name()), ..self }
    }

    /// Whether `key`, pressed at the save prompt, has the document saved.
    pub open spec fn saves_on(self, key: Key) -> bool {
        key == Key::Enter && self.can_save()
    }

    /// The state after `key` at the save prompt.
    pub open spec fn prompt(self, key: Key) -> EditorState {
        match key {
            Key::Char(c) => if self.filename is None {
                EditorState { input: self.input.push(c), ..self }
            } else {
                self
            },
            Key::Backspace => if self.input.len() > 0 {
                EditorState { input: self.input.drop_last(), ..self }
            } else {
                self
            },
            Key::Enter => if self.can_save() {
                EditorState { mode: Mode::Terminated, ..self.saved() }
            } else {
                EditorState { mode: Mode::Terminated, ..self }
            },
            Key::Esc => EditorState { mode: Mode::Terminated, ..self },
            _ => self,
        }
    }

    /// The state after `key`, whatever the mode.
    pub open spec fn step(self, key: Key) -> EditorState {
        match self.mode {
            Mode::Editing => self.edit(key),
            Mode::SavePrompt => self.prompt(key),
            Mode::Terminated => self,
        }
    }

    /// The pieces of text the screen shows, in order, each printed as it
    /// is: at the save prompt the label with the name typed so far, then
    /// the hint; otherwise the lines of the document, each with its
    /// terminator where it has one.
    pub open spec fn screen_rows(self) -> Seq<Seq<char>> {
        if self.mode == Mode::SavePrompt {
            seq![prompt_label() + self.input, prompt_hint()]
        } else {
            Seq::new(line_count(self.text), |i: int| line_text(self.text, i as nat))
        }
    }

    /// The column of the cursor on the screen: at the save prompt, behind
    /// the label and the bytes of the name typed so far; otherwise the
    /// cursor's column.
    pub open spec fn screen_column(self) -> nat {
        if self.mode == Mode::SavePrompt {
            (prompt_label().len() + encode_utf8(self.input).len()) % screen_span()
        } else {
            self.column % screen_span()
        }
    }

    /// The row of the cursor on the screen: the first at the save prompt,
    /// otherwise the cursor's line.
    pub open spec fn screen_row(self) -> nat {
        if self.mode == Mode::SavePrompt {
            0
        } else {
            self.line % screen_span()
        }
    }

    /// Whether `key`, pressed in the mode the session is in, has the
    /// document saved.
    pub open spec fn step_saves(self, key: Key) -> bool {
        self.mode == Mode::SavePrompt && self.saves_on(key)
    }

    /// The state after the keys of `keys`, pressed in order.
    pub open spec fn after_keys(self, keys: Seq<Key>) -> EditorState
        decreases keys.len(),
    {
        if keys.len() == 0 {
            self
        } else {
            self.after_keys(keys.drop_last()).step(keys.last())
        }
    }
}

} // verus!
