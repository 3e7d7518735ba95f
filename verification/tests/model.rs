use rope_editor::buffer::TextBuffer;
use rope_editor::editor::Editor;
use rope_editor::key::Key;
use rope_editor::model::Mode;

/// A small generator of repeatable pseudo-random numbers.
struct Numbers(u64);

impl Numbers {
    fn next(&mut self, bound: u64) -> u64 {
        self.0 = self.0.wrapping_mul(6364136223846793005).wrapping_add(1442695040888963407);
        (self.0 >> 33) % bound
    }
}

fn break_count(text: &[char]) -> usize {
    text.iter().filter(|c| **c == '\n').count()
}

fn line_start(text: &[char], line: usize) -> usize {
    let mut seen = 0;
    for (i, c) in text.iter().enumerate() {
        if seen == line {
            return i;
        }
        if *c == '\n' {
            seen += 1;
        }
    }
    text.len()
}

fn line_length(text: &[char], line: usize) -> usize {
    let breaks = break_count(text);
    if line > breaks {
        0
    } else if line < breaks {
        line_start(text, line + 1) - 1 - line_start(text, line)
    } else {
        text.len() - line_start(text, line)
    }
}

#[derive(Clone, Debug, PartialEq)]
struct State {
    text: Vec<char>,
    line: usize,
    column: usize,
    preferred: usize,
    filename: Option<String>,
    input: String,
    mode: Mode,
}

impl State {
    fn of(editor: &Editor) -> State {
        State {
            text: editor.buffer().text().chars().collect(),
            line: editor.cursor_line(),
            column: editor.cursor_col(),
            preferred: editor.preferred_column(),
            filename: editor.filename().map(|name| name.to_string()),
            input: editor.input_buffer().to_string(),
            mode: editor.mode(),
        }
    }

    fn place(&mut self, line: usize, column: usize) {
        self.line = line;
        self.column = column;
        self.preferred = column;
    }

    fn edit(&mut self, key: Key) {
        let index = line_start(&self.text, self.line) + self.column;
        match key {
            Key::Char(c) => {
                self.text.insert(index, c);
                self.place(self.line, self.column + 1);
            }
            Key::Enter => {
                self.text.insert(index, '\n');
                self.place(self.line + 1, 0);
            }
            Key::Backspace => {
                if self.column > 0 {
                    self.text.remove(index - 1);
                    self.place(self.line, self.column - 1);
                } else if self.line > 0 {
                    self.text.remove(index - 1);
                    let column = line_length(&self.text, self.line - 1);
                    self.place(self.line - 1, column);
                }
            }
            Key::Left => {
                if self.column > 0 {
                    self.place(self.line, self.column - 1);
                } else if self.line > 0 {
                    let column = line_length(&self.text, self.line - 1);
                    self.place(self.line - 1, column);
                }
            }
            Key::Right => {
                if self.column < line_length(&self.text, self.line) {
                    self.place(self.line, self.column + 1);
                } else if self.line + 1 < break_count(&self.text) + 1 {
                    self.place(self.line + 1, 0);
                }
            }
            Key::Up => {
                if self.line > 0 {
                    self.line -= 1;
                    self.column = self.preferred.min(line_length(&self.text, self.line));
                }
            }
            Key::Down => {
                if self.line + 1 < break_count(&self.text) + 1 {
                    self.line += 1;
                    self.column = self.preferred.min(line_length(&self.text, self.line));
                }
            }
            Key::Esc => {
                self.mode = Mode::SavePrompt;
                self.input.clear();
            }
            Key::Other => {}
        }
    }

    /// Returns the name and text to save, if the key asks for a save.
    fn prompt(&mut self, key: Key) -> Option<(String, String)> {
        match key {
            Key::Char(c) => {
                if self.filename.is_none() {
                    self.input.push(c);
                }
                None
            }
            Key::Backspace => {
                self.input.pop();
                None
            }
            Key::Enter => {
                self.mode = Mode::Terminated;
                if self.filename.is_some() || !self.input.is_empty() {
                    let name = self.filename.clone().unwrap_or(self.input.clone());
                    self.filename = Some(name.clone());
                    Some((name, self.text.iter().collect()))
                } else {
                    None
                }
            }
            Key::Esc => {
                self.mode = Mode::Terminated;
                None
            }
            _ => None,
        }
    }

    fn step(&mut self, key: Key) -> Option<(String, String)> {
        match self.mode {
            Mode::Editing => {
                self.edit(key);
                None
            }
            Mode::SavePrompt => self.prompt(key),
            Mode::Terminated => None,
        }
    }
}

fn random_text(numbers: &mut Numbers, length: usize) -> String {
    let alphabet = ['a', 'b', '\n', '\n', ' ', '\u{e9}', '\r', '\u{4e16}', '\u{2028}', '\n'];
    (0..length).map(|_| alphabet[numbers.next(alphabet.len() as u64) as usize]).collect()
}

fn random_key(numbers: &mut Numbers, with_terminator: bool) -> Key {
    match numbers.next(if with_terminator { 15 } else { 14 }) {
        0 | 1 => Key::Char('x'),
        2 => Key::Char('\u{e9}'),
        3 => Key::Enter,
        4 | 5 => Key::Backspace,
        6 | 7 => Key::Left,
        8 | 9 => Key::Right,
        10 | 11 => Key::Up,
        12 => Key::Down,
        13 => Key::Other,
        _ => Key::Char('\n'),
    }
}

#[test]
fn buffer_agrees_with_a_plain_count_of_terminators() {
    let mut numbers = Numbers(7);
    for round in 0..200 {
        let text = random_text(&mut numbers, round % 40);
        let chars: Vec<char> = text.chars().collect();
        let buffer = TextBuffer::from_str(&text);
        assert_eq!(buffer.char_count(), chars.len());
        assert_eq!(buffer.line_count(), break_count(&chars) + 1);
        for line in 0..=buffer.line_count() {
            assert_eq!(buffer.line_to_char_index(line), line_start(&chars, line));
        }
        for line in 0..buffer.line_count() + 2 {
            assert_eq!(buffer.line_length(line), line_length(&chars, line));
        }
        for line in 0..buffer.line_count() {
            let from = line_start(&chars, line);
            let to = line_start(&chars, line + 1);
            assert_eq!(buffer.line(line), chars[from..to].iter().collect::<String>());
        }
        assert_eq!(buffer.lines().concat(), text);
        assert_eq!(buffer.text(), text);
    }
}

#[test]
fn buffer_edits_agree_with_edits_of_a_vector() {
    let mut numbers = Numbers(11);
    for round in 0..50 {
        let text = random_text(&mut numbers, 5 + round % 30);
        let mut chars: Vec<char> = text.chars().collect();
        let mut buffer = TextBuffer::from_str(&text);
        for _ in 0..40 {
            match numbers.next(3) {
                0 => {
                    let at = numbers.next(chars.len() as u64 + 1) as usize;
                    chars.insert(at, '\n');
                    buffer.insert_char(at, '\n');
                }
                1 => {
                    let at = numbers.next(chars.len() as u64 + 1) as usize;
                    let piece = random_text(&mut numbers, 3);
                    for (i, c) in piece.chars().enumerate() {
                        chars.insert(at + i, c);
                    }
                    buffer.insert(at, &piece);
                }
                _ => {
                    let from = numbers.next(chars.len() as u64 + 1) as usize;
                    let to = from + numbers.next((chars.len() - from) as u64 + 1) as usize;
                    chars.drain(from..to);
                    buffer.remove(from, to);
                }
            }
            assert_eq!(buffer.text(), chars.iter().collect::<String>());
            assert_eq!(buffer.char_count(), chars.len());
            assert_eq!(buffer.line_count(), break_count(&chars) + 1);
            let line = numbers.next(buffer.line_count() as u64 + 1) as usize;
            assert_eq!(buffer.line_to_char_index(line), line_start(&chars, line));
            assert_eq!(buffer.line_length(line), line_length(&chars, line));
        }
    }
}

#[test]
fn editor_follows_the_key_table() {
    let mut numbers = Numbers(3);
    for round in 0..60 {
        let text = random_text(&mut numbers, round % 25);
        let mut editor = Editor::open(Some("f".to_string()), Some(&text));
        let mut state = State::of(&editor);
        assert_eq!(state.text, text.chars().collect::<Vec<char>>());
        for _ in 0..120 {
            let key = random_key(&mut numbers, false);
            editor.handle_editor_key(key);
            state.edit(key);
            assert_eq!(State::of(&editor), state);
            assert!(state.column <= line_length(&state.text, state.line));
            assert_eq!(
                editor.cursor_char_index(),
                line_start(&state.text, state.line) + state.column
            );
        }
    }
}

#[test]
fn editor_follows_the_key_table_with_typed_terminators() {
    let mut numbers = Numbers(5);
    for round in 0..60 {
        let text = random_text(&mut numbers, round % 25);
        let mut editor = Editor::open(None, Some(&text));
        let mut state = State::of(&editor);
        assert!(state.text.is_empty());
        for _ in 0..120 {
            let key = random_key(&mut numbers, true);
            editor.handle_editor_key(key);
            state.edit(key);
            assert_eq!(State::of(&editor), state);
            assert!(state.line <= break_count(&state.text));
            assert!(editor.cursor_char_index() <= state.text.len());
        }
    }
}

#[test]
fn sessions_follow_the_modes() {
    let mut numbers = Numbers(13);
    for round in 0..80 {
        let named = round % 2 == 0;
        let filename = if named { Some("named.txt".to_string()) } else { None };
        let mut editor = Editor::open(filename, Some("one\ntwo\n"));
        let mut state = State::of(&editor);
        for _ in 0..60 {
            let key = match numbers.next(12) {
                0 => Key::Esc,
                1 => Key::Enter,
                _ => random_key(&mut numbers, false),
            };
            let request = editor.handle_key(key);
            let expected = state.step(key);
            assert_eq!(request.map(|r| (r.filename, r.contents)), expected);
            assert_eq!(State::of(&editor), state);
            assert_eq!(editor.should_quit(), state.mode == Mode::Terminated);
            assert_eq!(editor.show_save_prompt(), state.mode == Mode::SavePrompt);
        }
    }
}
