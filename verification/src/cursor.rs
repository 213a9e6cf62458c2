//! Where the terminal cursor belongs on screen for a text and the region it
//! is drawn in.

use vstd::prelude::*;
use crate::editor::GapBuffer;
use crate::event::Rect;

verus! {

/// Number of line breaks in `s`.
pub open spec fn newline_count(s: Seq<char>) -> nat
    decreases s.len(),
{
    if s.len() == 0 {
        0
    } else {
        newline_count(s.drop_last()) + if s.last() == '\n' {
            1nat
        } else {
            0nat
        }
    }
}

/// Offset at which the last line of `s` begins: just past the last line
/// break, or 0 where there is none.
pub open spec fn line_start(s: Seq<char>) -> int
    decreases s.len(),
{
    if s.len() == 0 {
        0
    } else if s.last() == '\n' {
        s.len() as int
    } else {
        line_start(s.drop_last())
    }
}

/// The last line of `s` starts within `s`, holds no line break, and is
/// preceded by one unless it starts the text. The count of line breaks is
/// at most the length.
pub proof fn lemma_line_start(s: Seq<char>)
    ensures
        0 <= line_start(s) <= s.len(),
        newline_count(s) <= s.len(),
        line_start(s) > 0 ==> s[line_start(s) - 1] == '\n',
        forall|i: int| line_start(s) <= i < s.len() ==> s[i] != '\n',
    decreases s.len(),
{
    if s.len() > 0 {
        let shorter = s.drop_last();
        lemma_line_start(shorter);
        assert forall|i: int| line_start(s) <= i < s.len() implies s[i] != '\n' by {
            if i < shorter.len() {
                assert(shorter[i] == s[i]);
            }
        }
    }
}

/// The 1-based number of the line that the end of `s` is on.
pub open spec fn line_number(s: Seq<char>) -> int {
    newline_count(s) as int + 1
}

/// The number of characters between the start of the last line and the end
/// of `s`.
pub open spec fn column(s: Seq<char>) -> int {
    s.len() - line_start(s)
}

/// The screen cell of the cursor for a text that ends at the cursor, drawn
/// in a region with corner `(x, y)` and `padding` cells of inset: one cell
/// right of the last character, on the row of its line.
pub open spec fn cursor_cell(before: Seq<char>, area: Rect, padding: int) -> (int, int) {
    (area.x + padding + column(before) + 1, area.y + padding + line_number(before))
}

/// Whether both coordinates of the cursor's cell can be held in 16 bits.
pub open spec fn cursor_on_screen(before: Seq<char>, area: Rect, padding: int) -> bool {
    cursor_cell(before, area, padding).0 <= u16::MAX && cursor_cell(before, area, padding).1
        <= u16::MAX
}

/// Typing a character moves the end of the text one column on, or, for a
/// line break, to the start of the next line.
pub proof fn lemma_push(s: Seq<char>, c: char)
    ensures
        line_number(s.push(c)) == line_number(s) + if c == '\n' {
            1int
        } else {
            0int
        },
        column(s.push(c)) == if c == '\n' {
            0
        } else {
            column(s) + 1
        },
{
    assert(s.push(c).drop_last() =~= s);
}

/// The line number and the column of the place that follows the first
/// `upto` characters left of the cursor.
pub fn locate(buffer: &GapBuffer, upto: usize) -> (place: (usize, usize))
    requires
        buffer.wf(),
        upto <= buffer.gap_start,
    ensures
        place.0 == line_number(buffer@.before.take(upto as int)),
        place.1 == column(buffer@.before.take(upto as int)),
        1 <= place.0 <= upto + 1,
        place.1 <= upto,
        forall|i: int| upto - place.1 <= i < upto ==> buffer@.before[i] != '\n',
        place.1 < upto ==> buffer@.before[upto - place.1 - 1] == '\n',
{
    let ghost before = buffer@.before;
    let mut line_count: usize = 1;
    let mut last_newline: usize = 0;
    let mut i: usize = 0;
    while i < upto
        invariant
            buffer.wf(),
            i <= upto <= buffer.gap_start,
            before == buffer.buffer@.take(buffer.gap_start as int),
            line_count == line_number(before.take(i as int)),
            last_newline == line_start(before.take(i as int)),
            line_count <= i + 1,
            last_newline <= i,
        decreases upto - i,
    {
        proof {
            assert(before.take(i + 1).drop_last() =~= before.take(i as int));
            assert(before.take(i + 1).last() == buffer.buffer@[i as int]);
        }
        assert(buffer.gap_start < buffer.buffer.len());
        if buffer.buffer[i] == '\n' {
            line_count = line_count + 1;
            last_newline = i + 1;
        }
        i = i + 1;
    }
    proof {
        let prefix = before.take(upto as int);
        lemma_line_start(prefix);
        assert forall|i: int| upto - (upto - last_newline) <= i < upto implies before[i]
            != '\n' by {
            assert(prefix[i] == before[i]);
        }
        if last_newline > 0 {
            assert(prefix[last_newline - 1] == before[last_newline - 1]);
        }
    }
    (line_count, upto - last_newline)
}

/// The screen cell of the cursor of `buffer` when its text is drawn in
/// `area` with `padding` cells of inset on each side.
pub fn project_cursor(buffer: &GapBuffer, area: Rect, padding: u16) -> (cell: (u16, u16))
    requires
        buffer.wf(),
        cursor_on_screen(buffer@.before, area, padding as int),
    ensures
        (cell.0 as int, cell.1 as int) == cursor_cell(buffer@.before, area, padding as int),
{
    let (line_count, column): (usize, usize) = locate(buffer, buffer.gap_start);
    assert(buffer@.before.take(buffer.gap_start as int) =~= buffer@.before);
    (area.x + padding + (column as u16) + 1, area.y + padding + (line_count as u16))
}

/// The screen cell of the cursor in a one-line input with a border, drawn
/// in `area`, when `typed` characters stand left of the cursor.
pub open spec fn input_cell(typed: int, area: Rect) -> (int, int) {
    (area.x + typed + 1, area.y + 1)
}

/// Whether both coordinates of an input's cursor can be held in 16 bits.
pub open spec fn input_on_screen(typed: int, area: Rect) -> bool {
    input_cell(typed, area).0 <= u16::MAX && input_cell(typed, area).1 <= u16::MAX
}

/// The screen cell of the cursor in a one-line input drawn in `area`, when
/// `typed` characters stand left of the cursor.
pub fn input_cursor(typed: usize, area: Rect) -> (cell: (u16, u16))
    requires
        input_on_screen(typed as int, area),
    ensures
        (cell.0 as int, cell.1 as int) == input_cell(typed as int, area),
{
    (area.x + (typed as u16) + 1, area.y + 1)
}

/// Whether the cursor of a one-line input drawn in `area` fits the
/// screen's coordinates when `typed` characters stand left of it.
pub fn input_fits(typed: usize, area: Rect) -> (ok: bool)
    ensures
        ok == input_on_screen(typed as int, area),
{
    typed < 0xffff && area.x < 0xffff - (typed as u16) && area.y < 0xffff
}

/// Whether the cell for a place given by line number and column, in a
/// region with `padding` cells of inset, fits the screen's coordinates.
pub open spec fn place_on_screen(line: int, column: int, area: Rect, padding: int) -> bool {
    area.x + padding + column + 1 <= u16::MAX && area.y + padding + line <= u16::MAX
}

/// Whether the cell for a place given by line number and column fits the
/// screen's coordinates.
pub fn place_fits(line: usize, column: usize, area: Rect, padding: u16) -> (ok: bool)
    ensures
        ok == place_on_screen(line as int, column as int, area, padding as int),
{
    if line > 0xffff || column > 0xffff {
        return false;
    }
    let x: u32 = area.x as u32 + padding as u32 + column as u32 + 1;
    let y: u32 = area.y as u32 + padding as u32 + line as u32;
    x <= 0xffff && y <= 0xffff
}

} // verus!
