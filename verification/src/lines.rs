//! Lines of a text, as a mathematical model over `Seq<char>`.
//!
//! A text is a flat sequence of characters. The terminator `'\n'` ends a
//! line and belongs to the line it ends, so a text without a terminator is
//! one line and a trailing terminator is followed by one empty line.

use vstd::prelude::*;

verus! {

/// The character that ends a line.
pub const TERMINATOR: char = '\n';

/// Number of terminators in `s`.
pub open spec fn break_count(s: Seq<char>) -> nat
    decreases s.len(),
{
    if s.len() == 0 {
        0
    } else {
        break_count(s.drop_last()) + if s.last() == TERMINATOR { 1nat } else { 0nat }
    }
}

/// Number of lines of `s`: one more than its terminators.
pub open spec fn line_count(s: Seq<char>) -> nat {
    break_count(s) + 1
}

/// Character index at which line `line` begins: 0 for the first line,
/// otherwise the index just after the `line`-th terminator. For a line
/// past the last one it is the length of the text.
pub open spec fn line_start(s: Seq<char>, line: nat) -> nat
    decreases s.len(),
{
    if line == 0 || s.len() == 0 {
        0
    } else if line <= break_count(s.drop_last()) {
        line_start(s.drop_last(), line)
    } else {
        s.len()
    }
}

/// Character index just past the content of `line`: where its terminator
/// stands, or the end of the text for the last line.
pub open spec fn line_end(s: Seq<char>, line: nat) -> nat {
    if line < break_count(s) {
        (line_start(s, line + 1) - 1) as nat
    } else {
        s.len()
    }
}

/// Number of content characters of `line`, its terminator not counted;
/// 0 for a line that does not exist.
pub open spec fn line_length(s: Seq<char>, line: nat) -> nat {
    if line < line_count(s) {
        (line_end(s, line) - line_start(s, line)) as nat
    } else {
        0
    }
}

/// The characters of `line` without its terminator.
pub open spec fn line_content(s: Seq<char>, line: nat) -> Seq<char> {
    s.subrange(line_start(s, line) as int, (line_start(s, line) + line_length(s, line)) as int)
}

/// The raw text of `line`, its terminator included where it has one.
pub open spec fn line_text(s: Seq<char>, line: nat) -> Seq<char> {
    s.subrange(line_start(s, line) as int, line_start(s, line + 1) as int)
}

/// Terminators add up over concatenation.
pub proof fn lemma_break_count_concat(a: Seq<char>, b: Seq<char>)
    ensures
        break_count(a + b) == break_count(a) + break_count(b),
    decreases b.len(),
{
    if b.len() > 0 {
        assert((a + b).drop_last() =~= a + b.drop_last());
        lemma_break_count_concat(a, b.drop_last());
    }
}

/// A text has at most as many terminators as characters.
pub proof fn lemma_break_count_bound(s: Seq<char>)
    ensures
        break_count(s) <= s.len(),
    decreases s.len(),
{
    if s.len() > 0 {
        lemma_break_count_bound(s.drop_last());
    }
}

/// A longer prefix holds at least the terminators of a shorter one, and
/// one more character adds at most one.
pub proof fn lemma_break_count_prefix(s: Seq<char>, i: int, j: int)
    requires
        0 <= i <= j <= s.len(),
    ensures
        break_count(s.take(i)) <= break_count(s.take(j)) <= break_count(s),
        break_count(s.take(j)) - break_count(s.take(i)) <= j - i,
{
    assert(s.take(j) =~= s.take(i) + s.subrange(i, j));
    assert(s =~= s.take(j) + s.skip(j));
    lemma_break_count_concat(s.take(i), s.subrange(i, j));
    lemma_break_count_concat(s.take(j), s.skip(j));
    lemma_break_count_bound(s.subrange(i, j));
}

/// The terminators before index `i + 1` are those before `i`, and one more
/// exactly when a terminator stands at `i`.
pub proof fn lemma_break_count_step(s: Seq<char>, i: int)
    requires
        0 <= i < s.len(),
    ensures
        break_count(s.take(i + 1)) == break_count(s.take(i)) + if s[i] == TERMINATOR {
            1nat
        } else {
            0nat
        },
{
    assert(s.take(i + 1).drop_last() =~= s.take(i));
}

/// No line begins past the end of the text.
pub proof fn lemma_line_start_bound(s: Seq<char>, line: nat)
    ensures
        line_start(s, line) <= s.len(),
    decreases s.len(),
{
    if line != 0 && s.len() != 0 && line <= break_count(s.drop_last()) {
        lemma_line_start_bound(s.drop_last(), line);
    }
}

/// A line past the last one begins at the end of the text; in particular
/// `line_start(s, line_count(s)) == s.len()`.
pub proof fn lemma_line_start_past_end(s: Seq<char>, line: nat)
    requires
        line > break_count(s),
    ensures
        line_start(s, line) == s.len(),
{
}

/// Line `line` begins at or before index `i` exactly when the first `i`
/// characters hold at least `line` terminators: a line's start is the
/// first index with `line` terminators before it.
pub proof fn lemma_line_start_prefix(s: Seq<char>, line: nat, i: int)
    requires
        line <= break_count(s),
        0 <= i <= s.len(),
    ensures
        line_start(s, line) <= i <==> break_count(s.take(i)) >= line,
    decreases s.len(),
{
    if line > 0 && s.len() > 0 {
        let p = s.drop_last();
        if i == s.len() {
            assert(s.take(i) =~= s);
            lemma_line_start_bound(s, line);
        } else {
            assert(s.take(i) =~= p.take(i));
            if line <= break_count(p) {
                lemma_line_start_prefix(p, line, i);
            } else {
                lemma_break_count_prefix(p, i, i);
            }
        }
    }
}

/// What holds at the start of an existing line: exactly `line` terminators
/// stand before it, and the last of them stands right before it.
pub proof fn lemma_line_start_breaks(s: Seq<char>, line: nat)
    requires
        line <= break_count(s),
    ensures
        line_start(s, line) <= s.len(),
        break_count(s.take(line_start(s, line) as int)) == line,
        line > 0 ==> line_start(s, line) > 0 && s[line_start(s, line) - 1] == TERMINATOR,
{
    let start = line_start(s, line) as int;
    lemma_line_start_bound(s, line);
    lemma_line_start_prefix(s, line, start);
    if start > 0 {
        lemma_line_start_prefix(s, line, start - 1);
        lemma_break_count_step(s, start - 1);
    }
}

/// The starts of lines do not decrease with the line number, and the
/// starts of existing lines strictly increase.
pub proof fn lemma_line_start_monotonic(s: Seq<char>, a: nat, b: nat)
    requires
        a <= b,
    ensures
        line_start(s, a) <= line_start(s, b),
        a < b <= break_count(s) ==> line_start(s, a) < line_start(s, b),
{
    lemma_line_start_bound(s, a);
    if b <= break_count(s) {
        lemma_line_start_breaks(s, a);
        lemma_line_start_prefix(s, b, line_start(s, a) as int);
    }
}

/// The content of an existing line lies inside the text, between the
/// line's start and the start of the next line.
pub proof fn lemma_line_end_bounds(s: Seq<char>, line: nat)
    requires
        line < line_count(s),
    ensures
        line_start(s, line) <= line_end(s, line) <= line_start(s, line + 1) <= s.len(),
        line_start(s, line) + line_length(s, line) == line_end(s, line),
        line < break_count(s) ==> line_end(s, line) + 1 == line_start(s, line + 1) && s[line_end(
            s,
            line,
        ) as int] == TERMINATOR,
        line == break_count(s) ==> line_end(s, line) == line_start(s, line + 1) == s.len(),
{
    lemma_line_start_bound(s, line);
    if line < break_count(s) {
        lemma_line_start_monotonic(s, line, line + 1);
        lemma_line_start_breaks(s, line + 1);
    }
}

/// An index from the start of an existing line through the end of its
/// content has exactly `line` terminators before it.
pub proof fn lemma_breaks_before_index_in_line(s: Seq<char>, line: nat, i: int)
    requires
        line < line_count(s),
        line_start(s, line) <= i <= line_end(s, line),
    ensures
        break_count(s.take(i)) == line,
{
    lemma_line_end_bounds(s, line);
    lemma_line_start_prefix(s, line, i);
    if line < break_count(s) {
        lemma_line_start_prefix(s, line + 1, i);
    } else {
        lemma_break_count_prefix(s, i, i);
    }
}

/// The content of a line holds no terminator.
pub proof fn lemma_content_has_no_terminator(s: Seq<char>, line: nat, i: int)
    requires
        line < line_count(s),
        line_start(s, line) <= i < line_end(s, line),
    ensures
        s[i] != TERMINATOR,
{
    lemma_line_end_bounds(s, line);
    lemma_breaks_before_index_in_line(s, line, i);
    lemma_breaks_before_index_in_line(s, line, i + 1);
    lemma_break_count_step(s, i);
}

/// Line starts in a concatenation: a line that begins within the first
/// part begins at the same index, and a later one begins where it does in
/// the second part, counted from the terminators the first part leaves.
pub proof fn lemma_line_start_concat(a: Seq<char>, b: Seq<char>, line: nat)
    ensures
        line <= break_count(a) ==> line_start(a + b, line) == line_start(a, line),
        line > break_count(a) ==> line_start(a + b, line) == a.len() + line_start(
            b,
            (line - break_count(a)) as nat,
        ),
    decreases b.len(),
{
    if b.len() > 0 && line > 0 {
        let p = b.drop_last();
        assert((a + b).drop_last() =~= a + p);
        lemma_break_count_concat(a, p);
        lemma_line_start_concat(a, p, line);
    }
}

/// The raw texts of the first `n` lines, one after the other.
pub open spec fn joined_lines(s: Seq<char>, n: nat) -> Seq<char>
    decreases n,
{
    if n == 0 {
        Seq::empty()
    } else {
        joined_lines(s, (n - 1) as nat) + line_text(s, (n - 1) as nat)
    }
}

/// The first `n` lines, put together, are the text up to the start of
/// line `n`.
pub proof fn lemma_joined_lines(s: Seq<char>, n: nat)
    requires
        n <= line_count(s),
    ensures
        joined_lines(s, n) == s.take(line_start(s, n) as int),
    decreases n,
{
    if n > 0 {
        let line = (n - 1) as nat;
        lemma_joined_lines(s, line);
        lemma_line_end_bounds(s, line);
        assert(s.take(line_start(s, line) as int) + line_text(s, line) =~= s.take(
            line_start(s, n) as int,
        ));
    }
}

/// The lines of a text, put together in order, are the text: the lines
/// leave nothing out and add nothing.
pub proof fn lemma_lines_make_text(s: Seq<char>)
    ensures
        joined_lines(s, line_count(s)) == s,
{
    lemma_joined_lines(s, line_count(s));
}

/// 1 for the terminator, 0 for any other character.
pub open spec fn break_weight(c: char) -> nat {
    if c == TERMINATOR {
        1
    } else {
        0
    }
}

/// A text of one character holds one terminator or none.
pub proof fn lemma_break_count_single(c: char)
    ensures
        break_count(seq![c]) == break_weight(c),
{
    assert(seq![c].drop_last() =~= Seq::<char>::empty());
    assert(break_count(Seq::<char>::empty()) == 0);
}

/// How inserting one character at index `i` moves the lines: a line that
/// begins at or before `i` stays where it is, and a later line begins one
/// place on, under a number one higher if the character is a terminator.
pub proof fn lemma_insert_line_starts(s: Seq<char>, i: int, c: char, line: nat)
    requires
        0 <= i <= s.len(),
    ensures
        break_count(s.insert(i, c)) == break_count(s) + break_weight(c),
        line <= break_count(s.take(i)) ==> line_start(s.insert(i, c), line) == line_start(s, line),
        line > break_count(s.take(i)) ==> line_start(s.insert(i, c), line + break_weight(c))
            == line_start(s, line) + 1,
{
    let a = s.take(i);
    let b = s.skip(i);
    let mid = seq![c];
    assert(s =~= a + b);
    assert(s.insert(i, c) =~= (a + mid) + b);
    lemma_break_count_single(c);
    lemma_break_count_concat(a, mid);
    lemma_break_count_concat(a, b);
    lemma_break_count_concat(a + mid, b);
    lemma_line_start_concat(a, b, line);
    lemma_line_start_concat(a, mid, line);
    lemma_line_start_concat(a + mid, b, line);
    lemma_line_start_concat(a + mid, b, line + break_weight(c));
}

/// How removing the character at index `i` moves the lines: a line that
/// begins at or before `i` stays where it is, and a line that begins after
/// the removed character begins one place back, under a number one lower
/// if the character was a terminator.
pub proof fn lemma_remove_line_starts(s: Seq<char>, i: int, line: nat)
    requires
        0 <= i < s.len(),
    ensures
        break_count(s.remove(i)) + break_weight(s[i]) == break_count(s),
        line <= break_count(s.take(i)) ==> line_start(s.remove(i), line) == line_start(s, line),
        line > break_count(s.take(i)) + break_weight(s[i]) ==> line_start(
            s.remove(i),
            (line - break_weight(s[i])) as nat,
        ) + 1 == line_start(s, line),
{
    let a = s.take(i);
    let b = s.skip(i + 1);
    let mid = seq![s[i]];
    assert(s =~= (a + mid) + b);
    lemma_break_count_single(s[i]);
    lemma_break_count_concat(a, mid);
    lemma_break_count_concat(a, b);
    lemma_break_count_concat(a + mid, b);
    lemma_line_start_concat(a, b, line);
    lemma_line_start_concat(a, mid, line);
    lemma_line_start_concat(a + mid, b, line);
    lemma_line_start_concat(a, b, (line - break_weight(s[i])) as nat);
}

} // verus!
