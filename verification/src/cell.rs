//! Terminal cells, and fitting text into a run of them.
//!
//! A character above the ASCII range takes two cells on screen, every other
//! character one. A row of a panel is a sequence of cells, so a glyph that is
//! two cells wide shows as its left half followed by its right half, and a row
//! that holds only whole glyphs never ends between the two.

use crate::text::char_at;
use vstd::prelude::*;

verus! {

/// What one terminal cell shows.
#[derive(Clone, Copy, Debug, PartialEq, Eq, Structural)]
pub enum Cell {
    /// A glyph that is one cell wide.
    Glyph(char),
    /// The left half of a glyph that is two cells wide.
    Wide(char),
    /// The right half of the wide glyph in the cell before.
    Tail,
}

/// Whether `c` takes two cells.
pub open spec fn is_wide(c: char) -> bool {
    c > '\x7f'
}

/// The number of cells that `c` takes.
pub open spec fn span(c: char) -> int {
    if is_wide(c) {
        2
    } else {
        1
    }
}

/// The cells that show `c`.
pub open spec fn cells_of(c: char) -> Seq<Cell> {
    if is_wide(c) {
        seq![Cell::Wide(c), Cell::Tail]
    } else {
        seq![Cell::Glyph(c)]
    }
}

/// The cells of the longest run of characters of `text`, starting at `from`,
/// that takes no more than `room` cells. The run stops before the first
/// character that does not fit whole.
pub open spec fn fitted(text: Seq<char>, from: int, room: int) -> Seq<Cell>
    decreases text.len() - from,
{
    if from < 0 || from >= text.len() || span(text[from]) > room {
        Seq::empty()
    } else {
        cells_of(text[from]) + fitted(text, from + 1, room - span(text[from]))
    }
}

/// The number of characters of `text`, starting at `from`, that fit whole in
/// `room` cells.
pub open spec fn fitting(text: Seq<char>, from: int, room: int) -> int
    decreases text.len() - from,
{
    if from < 0 || from >= text.len() || span(text[from]) > room {
        0
    } else {
        1 + fitting(text, from + 1, room - span(text[from]))
    }
}

/// The cells that show the characters of `text` from `from` up to `to`.
pub open spec fn cells_between(text: Seq<char>, from: int, to: int) -> Seq<Cell>
    decreases to - from,
{
    if from < 0 || from >= to || to > text.len() {
        Seq::empty()
    } else {
        cells_of(text[from]) + cells_between(text, from + 1, to)
    }
}

/// The number of cells that the characters of `text` from `from` up to `to`
/// take.
pub open spec fn width_between(text: Seq<char>, from: int, to: int) -> int
    decreases to - from,
{
    if from < 0 || from >= to || to > text.len() {
        0
    } else {
        span(text[from]) + width_between(text, from + 1, to)
    }
}

/// `n` cells that each show `c`; none when `n` is not positive.
pub open spec fn run(c: char, n: int) -> Seq<Cell> {
    Seq::new(
        if n > 0 {
            n as nat
        } else {
            0
        },
        |i: int| Cell::Glyph(c),
    )
}

/// `text` in exactly `room` cells: as much of it as fits whole, then spaces.
pub open spec fn padded(text: Seq<char>, room: int) -> Seq<Cell> {
    fitted(text, 0, room) + run(' ', room - fitted(text, 0, room).len())
}

/// Whether the cell at `i` is part of a whole glyph: a left half is followed
/// by a right half, and a right half follows a left half.
pub open spec fn whole_at(row: Seq<Cell>, i: int) -> bool {
    &&& row[i] is Wide ==> i + 1 < row.len() && row[i + 1] is Tail
    &&& row[i] is Tail ==> i > 0 && row[i - 1] is Wide
}

/// Whether every wide glyph of `row` is there with both its halves.
pub open spec fn whole_glyphs(row: Seq<Cell>) -> bool {
    forall|i: int| 0 <= i < row.len() ==> #[trigger] whole_at(row, i)
}

/// The cells of one character are as many as its span, and are a whole glyph.
pub proof fn lemma_cells_of(c: char)
    ensures
        cells_of(c).len() == span(c),
        whole_glyphs(cells_of(c)),
{
}

/// What fits takes no more cells than there is room, and holds only whole
/// glyphs.
pub proof fn lemma_fitted(text: Seq<char>, from: int, room: int)
    requires
        0 <= room,
    ensures
        fitted(text, from, room).len() <= room,
        whole_glyphs(fitted(text, from, room)),
    decreases text.len() - from,
{
    if 0 <= from < text.len() && span(text[from]) <= room {
        let head = cells_of(text[from]);
        let rest = fitted(text, from + 1, room - span(text[from]));
        lemma_fitted(text, from + 1, room - span(text[from]));
        lemma_cells_of(text[from]);
        lemma_whole_glyphs_join(head, rest);
    }
}

/// Fitting truncates: what fits is a beginning of the text, shown whole; it
/// takes no more cells than there is room; and it is the longest such
/// beginning, for with one character more it would take more.
pub proof fn lemma_fitted_longest(text: Seq<char>, from: int, room: int)
    requires
        0 <= from <= text.len(),
        0 <= room,
    ensures
        0 <= fitting(text, from, room),
        from + fitting(text, from, room) <= text.len(),
        fitted(text, from, room) == cells_between(text, from, from + fitting(text, from, room)),
        width_between(text, from, from + fitting(text, from, room)) <= room,
        from + fitting(text, from, room) < text.len() ==> width_between(
            text,
            from,
            from + fitting(text, from, room) + 1,
        ) > room,
    decreases text.len() - from,
{
    if from >= text.len() || span(text[from]) > room {
        if from < text.len() {
            assert(width_between(text, from + 1, from + 1) == 0);
        }
    } else {
        lemma_fitted_longest(text, from + 1, room - span(text[from]));
    }
}

/// A row of one-cell glyphs holds only whole glyphs.
pub proof fn lemma_plain_whole(row: Seq<Cell>)
    requires
        forall|i: int| 0 <= i < row.len() ==> (#[trigger] row[i]) is Glyph,
    ensures
        whole_glyphs(row),
{
    assert forall|i: int| 0 <= i < row.len() implies #[trigger] whole_at(row, i) by {}
}

/// Two rows of whole glyphs, one after the other, are a row of whole glyphs.
pub proof fn lemma_whole_glyphs_join(a: Seq<Cell>, b: Seq<Cell>)
    requires
        whole_glyphs(a),
        whole_glyphs(b),
    ensures
        whole_glyphs(a + b),
{
    let row = a + b;
    assert forall|i: int| 0 <= i < row.len() implies #[trigger] whole_at(row, i) by {
        if i < a.len() {
            assert(whole_at(a, i));
        } else {
            assert(whole_at(b, i - a.len()));
        }
    }
}

/// A text padded to `room` cells takes exactly `room` cells and holds only
/// whole glyphs, whatever characters it is made of.
pub proof fn lemma_padded(text: Seq<char>, room: int)
    requires
        0 <= room,
    ensures
        padded(text, room).len() == room,
        whole_glyphs(padded(text, room)),
{
    lemma_fitted(text, 0, room);
    let blanks = run(' ', room - fitted(text, 0, room).len());
    lemma_plain_whole(blanks);
    lemma_whole_glyphs_join(fitted(text, 0, room), blanks);
}

/// Whether `c` takes two cells.
pub fn wide(c: char) -> (w: bool)
    ensures
        w == is_wide(c),
{
    c > '\x7f'
}

/// Appends `n` cells that show `c` to `row`.
pub fn push_run(row: &mut Vec<Cell>, c: char, n: usize)
    ensures
        final(row)@ == old(row)@ + run(c, n as int),
{
    let mut i: usize = 0;
    while i < n
        invariant
            i <= n,
            row@ == old(row)@ + run(c, i as int),
        decreases n - i,
    {
        row.push(Cell::Glyph(c));
        i = i + 1;
    }
}

/// Appends to `row` as much of `text` as fits whole in `room` cells, and
/// returns the number of cells that it took.
pub fn push_fitted(row: &mut Vec<Cell>, text: &Vec<char>, room: usize) -> (used: usize)
    ensures
        final(row)@ == old(row)@ + fitted(text@, 0, room as int),
        used == fitted(text@, 0, room as int).len(),
        used <= room,
{
    let mut i: usize = 0;
    let mut used: usize = 0;
    while i < text.len()
        invariant
            i <= text@.len(),
            used <= room,
            row@.len() == old(row)@.len() + used,
            old(row)@ + fitted(text@, 0, room as int) == row@ + fitted(
                text@,
                i as int,
                room - used,
            ),
        ensures
            used <= room,
            row@ == old(row)@ + fitted(text@, 0, room as int),
            row@.len() == old(row)@.len() + used,
        decreases text@.len() - i,
    {
        let c = char_at(text, i);
        if wide(c) {
            if room - used < 2 {
                break;
            }
            row.push(Cell::Wide(c));
            row.push(Cell::Tail);
            used = used + 2;
        } else {
            if room - used < 1 {
                break;
            }
            row.push(Cell::Glyph(c));
            used = used + 1;
        }
        i = i + 1;
    }
    used
}

/// Appends `text` to `row` in exactly `room` cells: as much of it as fits
/// whole, then spaces.
pub fn push_padded(row: &mut Vec<Cell>, text: &Vec<char>, room: usize)
    ensures
        final(row)@ == old(row)@ + padded(text@, room as int),
{
    let used = push_fitted(row, text, room);
    push_run(row, ' ', room - used);
}

} // verus!
