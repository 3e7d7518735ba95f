//! What holds of the editor's state machine, proved over the model.

use crate::key::Key;
use crate::lines::{
    lemma_breaks_before_index_in_line, lemma_content_has_no_terminator, lemma_insert_line_starts,
    lemma_line_end_bounds, lemma_line_start_bound, lemma_line_start_breaks,
    lemma_line_start_prefix, lemma_remove_line_starts, line_content, line_count, line_length,
    TERMINATOR,
};
use crate::model::{lesser, EditorState, Mode};
use vstd::prelude::*;

verus! {

/// A cursor that stands on its line stands in the text.
pub proof fn lemma_cursor_on_line_is_in_text(s: EditorState)
    requires
        s.cursor_on_line(),
    ensures
        s.cursor_in_text(),
{
    lemma_line_end_bounds(s.text, s.line);
}

/// A session begins with the cursor on its line, at the start of the
/// document.
pub proof fn lemma_opened_cursor_on_line(filename: Option<Seq<char>>, contents: Option<Seq<char>>)
    ensures
        EditorState::opened(filename, contents).cursor_on_line(),
        EditorState::opened(filename, contents).cursor_in_text(),
        EditorState::opened(filename, contents).cursor_index() == 0,
{
    let s = EditorState::opened(filename, contents);
}

/// In editing mode every key leaves the cursor in the text.
pub proof fn lemma_edit_keeps_cursor_in_text(s: EditorState, key: Key)
    requires
        s.cursor_in_text(),
    ensures
        s.edit(key).cursor_in_text(),
{
    let index = s.cursor_index() as int;
    let after = s.edit(key);
    match key {
        Key::Char(c) => {
            lemma_line_start_prefix(s.text, s.line, index);
            lemma_insert_line_starts(s.text, index, c, s.line);
        },
        Key::Enter => {
            lemma_insert_line_starts(s.text, index, TERMINATOR, s.line);
            lemma_line_start_bound(after.text, after.line);
        },
        Key::Backspace => {
            if s.column > 0 {
                lemma_line_start_prefix(s.text, s.line, index - 1);
                lemma_remove_line_starts(s.text, index - 1, s.line);
            } else if s.line > 0 {
                lemma_line_start_breaks(s.text, s.line);
                lemma_remove_line_starts(s.text, index - 1, s.line);
                lemma_line_end_bounds(after.text, after.line);
            }
        },
        Key::Left => {
            if s.column == 0 && s.line > 0 {
                lemma_line_end_bounds(s.text, after.line);
            }
        },
        Key::Right => {
            if s.column < line_length(s.text, s.line) {
                lemma_line_end_bounds(s.text, s.line);
            } else if s.line + 1 < line_count(s.text) {
                lemma_line_start_bound(s.text, s.line + 1);
            }
        },
        Key::Up => {
            if s.line > 0 {
                lemma_line_end_bounds(s.text, after.line);
            }
        },
        Key::Down => {
            if s.line + 1 < line_count(s.text) {
                lemma_line_end_bounds(s.text, after.line);
            }
        },
        Key::Esc => {},
        Key::Other => {},
    }
}

/// In editing mode every key leaves a cursor that stands on its line on
/// its line, but for a terminator typed as a character: the line then
/// ends before the cursor.
pub proof fn lemma_edit_keeps_cursor_on_line(s: EditorState, key: Key)
    requires
        s.cursor_on_line(),
        key != Key::Char(TERMINATOR),
    ensures
        s.edit(key).cursor_on_line(),
{
    let index = s.cursor_index() as int;
    lemma_line_end_bounds(s.text, s.line);
    match key {
        Key::Char(c) => {
            lemma_breaks_before_index_in_line(s.text, s.line, index);
            lemma_insert_line_starts(s.text, index, c, s.line);
            lemma_insert_line_starts(s.text, index, c, s.line + 1);
        },
        Key::Enter => {
            lemma_insert_line_starts(s.text, index, TERMINATOR, s.line);
        },
        Key::Backspace => {
            if s.column > 0 {
                lemma_content_has_no_terminator(s.text, s.line, index - 1);
                lemma_remove_line_starts(s.text, index - 1, s.line);
                lemma_remove_line_starts(s.text, index - 1, s.line + 1);
            } else if s.line > 0 {
                lemma_line_start_breaks(s.text, s.line);
                lemma_remove_line_starts(s.text, index - 1, s.line);
            }
        },
        _ => {},
    }
}

/// Typing a character moves the cursor's absolute index on by exactly one.
/// The character stands where the cursor stood, and the character that
/// stood there comes right after it.
pub proof fn lemma_typed_character_advances_cursor(s: EditorState, c: char)
    requires
        s.cursor_in_text(),
    ensures
        s.edit(Key::Char(c)).cursor_index() == s.cursor_index() + 1,
        s.edit(Key::Char(c)).text.len() == s.text.len() + 1,
        s.edit(Key::Char(c)).text[s.cursor_index() as int] == c,
        s.cursor_index() < s.text.len() ==> s.edit(Key::Char(c)).text[s.cursor_index() as int + 1]
            == s.text[s.cursor_index() as int],
        s.edit(Key::Char(c)).text.take(s.cursor_index() as int) == s.text.take(
            s.cursor_index() as int,
        ),
        s.edit(Key::Char(c)).text.skip(s.cursor_index() as int + 1) == s.text.skip(
            s.cursor_index() as int,
        ),
{
    let index = s.cursor_index() as int;
    lemma_line_start_prefix(s.text, s.line, index);
    lemma_insert_line_starts(s.text, index, c, s.line);
}

/// Enter, with the cursor on its line, does the same with a terminator:
/// the cursor's absolute index moves on by exactly one, to the start of
/// the next line, and the character that stood at the cursor comes right
/// after the terminator.
pub proof fn lemma_enter_advances_cursor(s: EditorState)
    requires
        s.cursor_on_line(),
    ensures
        s.edit(Key::Enter).cursor_index() == s.cursor_index() + 1,
        s.edit(Key::Enter).text.len() == s.text.len() + 1,
        s.edit(Key::Enter).text[s.cursor_index() as int] == TERMINATOR,
        s.cursor_index() < s.text.len() ==> s.edit(Key::Enter).text[s.cursor_index() as int + 1]
            == s.text[s.cursor_index() as int],
        line_count(s.edit(Key::Enter).text) == line_count(s.text) + 1,
{
    let index = s.cursor_index() as int;
    let after = s.edit(Key::Enter);
    lemma_line_end_bounds(s.text, s.line);
    lemma_breaks_before_index_in_line(s.text, s.line, index);
    lemma_insert_line_starts(s.text, index, TERMINATOR, s.line);
    lemma_line_start_prefix(after.text, after.line, index + 1);
    lemma_line_start_prefix(after.text, after.line, index);
    assert(after.text.take(index + 1).drop_last() =~= s.text.take(index));
    assert(after.text.take(index) =~= s.text.take(index));
}

/// Backspace at the start of a line other than the first joins the line
/// to the one before: the terminator between them goes, there is one line
/// less, the joined line holds the content of the earlier line followed by
/// that of the later one, and the cursor stands at its end.
pub proof fn lemma_backspace_joins_lines(s: EditorState)
    requires
        s.cursor_in_text(),
        s.column == 0,
        s.line > 0,
    ensures
        s.text[s.cursor_index() - 1] == TERMINATOR,
        s.edit(Key::Backspace).text == s.text.remove(s.cursor_index() - 1),
        line_count(s.edit(Key::Backspace).text) + 1 == line_count(s.text),
        s.edit(Key::Backspace).line + 1 == s.line,
        line_content(s.edit(Key::Backspace).text, (s.line - 1) as nat) == line_content(
            s.text,
            (s.line - 1) as nat,
        ) + line_content(s.text, s.line),
        s.edit(Key::Backspace).column == line_length(s.text, (s.line - 1) as nat) + line_length(
            s.text,
            s.line,
        ),
        s.edit(Key::Backspace).preferred_column == s.edit(Key::Backspace).column,
{
    let index = s.cursor_index() as int;
    let after = s.edit(Key::Backspace);
    let before = (s.line - 1) as nat;
    lemma_line_end_bounds(s.text, s.line);
    lemma_line_end_bounds(s.text, before);
    lemma_breaks_before_index_in_line(s.text, before, index - 1);
    lemma_remove_line_starts(s.text, index - 1, before);
    lemma_remove_line_starts(s.text, index - 1, s.line + 1);
    assert(line_content(after.text, before) =~= line_content(s.text, before) + line_content(
        s.text,
        s.line,
    ));
}

/// Where the line that is joined on is empty, the cursor's new column is
/// the length the earlier line had.
pub proof fn lemma_backspace_join_column(s: EditorState)
    requires
        s.cursor_in_text(),
        s.column == 0,
        s.line > 0,
        line_length(s.text, s.line) == 0,
    ensures
        s.edit(Key::Backspace).column == line_length(s.text, (s.line - 1) as nat),
{
    lemma_backspace_joins_lines(s);
}

/// Whether `key` moves the cursor up or down.
pub open spec fn is_vertical(key: Key) -> bool {
    key == Key::Up || key == Key::Down
}

/// Vertical moves, however many, keep the preferred column and the text.
/// Unless the cursor is where it was, it stands at the preferred column
/// of its line, or at the line's end where the line is shorter: a short
/// line on the way does not shorten the column for the lines after it.
pub proof fn lemma_vertical_moves_keep_preferred_column(s: EditorState, keys: Seq<Key>)
    requires
        s.mode == Mode::Editing,
        forall|i: int| 0 <= i < keys.len() ==> is_vertical(#[trigger] keys[i]),
    ensures
        s.after_keys(keys).preferred_column == s.preferred_column,
        s.after_keys(keys).text == s.text,
        s.after_keys(keys).mode == Mode::Editing,
        (s.after_keys(keys).line == s.line && s.after_keys(keys).column == s.column)
            || s.after_keys(keys).column == lesser(
            s.preferred_column,
            line_length(s.text, s.after_keys(keys).line),
        ),
    decreases keys.len(),
{
    if keys.len() > 0 {
        let earlier = keys.drop_last();
        assert(forall|i: int| 0 <= i < earlier.len() ==> is_vertical(#[trigger] earlier[i]));
        lemma_vertical_moves_keep_preferred_column(s, earlier);
    }
}

/// One vertical move that changes the line puts the cursor at the
/// preferred column, or at the end of a shorter line.
pub proof fn lemma_vertical_move_column(s: EditorState, key: Key)
    requires
        is_vertical(key),
    ensures
        s.edit(key).preferred_column == s.preferred_column,
        s.edit(key).text == s.text,
        s.edit(key).line != s.line ==> s.edit(key).column == lesser(
            s.preferred_column,
            line_length(s.text, s.edit(key).line),
        ),
        s.edit(key).line == s.line ==> s.edit(key) == s,
        key == Key::Up && s.line > 0 ==> s.edit(key).line == s.line - 1,
        key == Key::Down && s.line + 1 < line_count(s.text) ==> s.edit(key).line == s.line + 1,
{
}

/// Left at the start of the document changes nothing.
pub proof fn lemma_left_at_document_start(s: EditorState)
    requires
        s.line == 0,
        s.column == 0,
    ensures
        s.edit(Key::Left) == s,
{
}

/// Right at the end of the document, that is at the end of the last
/// line, changes nothing.
pub proof fn lemma_right_at_document_end(s: EditorState)
    requires
        s.line + 1 == line_count(s.text),
        s.column == line_length(s.text, s.line),
    ensures
        s.edit(Key::Right) == s,
        s.cursor_index() == s.text.len(),
{
    lemma_line_end_bounds(s.text, s.line);
}

/// Backspace at the start of the document changes nothing.
pub proof fn lemma_backspace_at_document_start(s: EditorState)
    requires
        s.line == 0,
        s.column == 0,
    ensures
        s.edit(Key::Backspace) == s,
{
}

/// Whether `key` only moves the cursor, or does nothing, in editing mode.
pub open spec fn is_move(key: Key) -> bool {
    key == Key::Left || key == Key::Right || key == Key::Up || key == Key::Down || key
        == Key::Other
}

/// Keys that only move the cursor leave the document, its file name and
/// the mode as they are.
pub proof fn lemma_moves_keep_document(s: EditorState, moves: Seq<Key>)
    requires
        s.mode == Mode::Editing,
        forall|i: int| 0 <= i < moves.len() ==> is_move(#[trigger] moves[i]),
    ensures
        s.after_keys(moves).text == s.text,
        s.after_keys(moves).filename == s.filename,
        s.after_keys(moves).input == s.input,
        s.after_keys(moves).mode == Mode::Editing,
    decreases moves.len(),
{
    if moves.len() > 0 {
        let earlier = moves.drop_last();
        assert(forall|i: int| 0 <= i < earlier.len() ==> is_move(#[trigger] earlier[i]));
        lemma_moves_keep_document(s, earlier);
    }
}

/// A file that is opened and saved with no edit between, whatever moves
/// of the cursor are made, is written back as it was read, character for
/// character and under its own name: nothing is added to or taken from
/// its end.
pub proof fn lemma_round_trip(filename: Seq<char>, contents: Seq<char>, moves: Seq<Key>)
    requires
        forall|i: int| 0 <= i < moves.len() ==> is_move(#[trigger] moves[i]),
    ensures
        ({
            let opened = EditorState::opened(Some(filename), Some(contents));
            let prompted = opened.after_keys(moves).step(Key::Esc);
            &&& opened.text == contents
            &&& prompted.mode == Mode::SavePrompt
            &&& prompted.step_saves(Key::Enter)
            &&& prompted.text == contents
            &&& prompted.save_name() == filename
            &&& prompted.step(Key::Enter).mode == Mode::Terminated
        }),
{
    lemma_moves_keep_document(EditorState::opened(Some(filename), Some(contents)), moves);
}

/// At the save prompt no key changes the document or moves the cursor.
pub proof fn lemma_prompt_keeps_document(s: EditorState, key: Key)
    ensures
        s.prompt(key).text == s.text,
        s.prompt(key).line == s.line,
        s.prompt(key).column == s.column,
        s.prompt(key).preferred_column == s.preferred_column,
        s.prompt(key).mode == Mode::Terminated || s.prompt(key).mode == s.mode,
        s.filename is Some ==> s.prompt(key).filename == s.filename,
{
}

/// Once a save has named the document's file, every later save writes to
/// that name, whatever is typed at a prompt in between.
pub proof fn lemma_saved_name_stays(s: EditorState, input: Seq<char>)
    ensures
        s.saved().can_save(),
        (EditorState { input, ..s.saved() }).save_name() == s.save_name(),
        (EditorState { input, ..s.saved() }).saved().filename == Some(s.save_name()),
        s.filename is Some ==> s.saved() == s,
{
}

/// Every key, in every mode, leaves the cursor in the text.
pub proof fn lemma_step_keeps_cursor_in_text(s: EditorState, key: Key)
    requires
        s.cursor_in_text(),
    ensures
        s.step(key).cursor_in_text(),
{
    if s.mode == Mode::Editing {
        lemma_edit_keeps_cursor_in_text(s, key);
    }
}

} // verus!
