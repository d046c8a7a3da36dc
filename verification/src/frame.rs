//! The frame: a bordered rectangle with a title, a scroll offset and a
//! scrollbar, which turns lines of text into rows of terminal cells.
//!
//! A frame of width `w` and height `h` draws `h` rows. The first is the title
//! row, the last the bottom border, and each row between them shows one line
//! of the content: a border, a space, the line in `w - 4` cells, the scrollbar
//! and a border. Frames too small for that fall back to bare borders.

use crate::cell::{
    fitted, lemma_fitted, lemma_padded, lemma_plain_whole, lemma_whole_glyphs_join, padded,
    push_fitted, push_padded, push_run, run, whole_glyphs, Cell,
};
use crate::layout::Rect;
use crate::text::to_chars;
use vstd::prelude::*;
use vstd::string::*;

verus! {

/// The top left corner of a frame.
pub const TOP_LEFT: char = '\u{250c}';

/// The top right corner of a frame.
pub const TOP_RIGHT: char = '\u{2510}';

/// The bottom left corner of a frame.
pub const BOTTOM_LEFT: char = '\u{2514}';

/// The bottom right corner of a frame.
pub const BOTTOM_RIGHT: char = '\u{2518}';

/// A stroke of the top or bottom border.
pub const HORIZONTAL: char = '\u{2500}';

/// A stroke of the left or right border, and the thumb of the scrollbar.
pub const VERTICAL: char = '\u{2502}';

/// One step of scrolling.
#[derive(Clone, Copy, Debug, PartialEq, Eq, Structural)]
pub enum ScrollStep {
    /// Towards the end of the content.
    Down,
    /// Towards the start of the content.
    Up,
}

/// The rows of a frame and where they go on the screen: the cell with index
/// `j` of the row with index `i` belongs at column `x + j` of row `y + i`.
#[derive(Debug, PartialEq, Eq)]
pub struct Drawing {
    /// The column of the first cell of each row.
    pub x: u16,
    /// The row of the first row.
    pub y: u16,
    /// The rows, top to bottom.
    pub rows: Vec<Vec<Cell>>,
}

/// What a drawing is, as mathematics.
pub struct DrawingModel {
    /// The column of the first cell of each row.
    pub x: nat,
    /// The row of the first row.
    pub y: nat,
    /// The rows, top to bottom.
    pub rows: Seq<Seq<Cell>>,
}

impl View for Drawing {
    type V = DrawingModel;

    open spec fn view(&self) -> DrawingModel {
        DrawingModel { x: self.x as nat, y: self.y as nat, rows: grid(self.rows@) }
    }
}

/// What a frame is, as mathematics.
pub struct FrameModel {
    /// The title, shown in the first row.
    pub title: Seq<char>,
    /// The column of the left border.
    pub x: nat,
    /// The row of the title.
    pub y: nat,
    /// The number of columns, borders included.
    pub width: nat,
    /// The number of rows, title and bottom border included.
    pub height: nat,
    /// The index of the content line shown in the first row below the title.
    pub scroll: nat,
    /// The number of content lines at the last drawing.
    pub content_len: nat,
}

impl FrameModel {
    /// The number of rows between the title and the bottom border.
    pub open spec fn inner_height(self) -> nat {
        if self.height >= 2 {
            (self.height - 2) as nat
        } else {
            0
        }
    }

    /// The largest scroll offset: what the content has more than the frame
    /// can show.
    pub open spec fn max_scroll(self) -> nat {
        if self.content_len > self.inner_height() {
            (self.content_len - self.inner_height()) as nat
        } else {
            0
        }
    }

    /// Whether the scroll offset is in its range.
    pub open spec fn clamped(self) -> bool {
        self.scroll <= self.max_scroll()
    }

    /// The frame with its scroll offset brought into range.
    pub open spec fn clamp(self) -> FrameModel {
        FrameModel {
            scroll: if self.scroll <= self.max_scroll() {
                self.scroll
            } else {
                self.max_scroll()
            },
            ..self
        }
    }

    /// The frame after drawing `n` lines of content.
    pub open spec fn with_content(self, n: nat) -> FrameModel {
        FrameModel { content_len: n, ..self }.clamp()
    }

    /// The frame resized to `height` rows.
    pub open spec fn with_height(self, height: nat) -> FrameModel {
        FrameModel { height, ..self }.clamp()
    }

    /// The frame moved and resized to `place`.
    pub open spec fn placed(self, place: Rect) -> FrameModel {
        FrameModel {
            x: place.x as nat,
            y: place.y as nat,
            width: place.width as nat,
            ..self
        }.with_height(place.height as nat)
    }

    /// The frame after one step of scrolling.
    pub open spec fn scrolled(self, step: ScrollStep) -> FrameModel {
        match step {
            ScrollStep::Down => FrameModel { scroll: self.scroll + 1, ..self }.clamp(),
            ScrollStep::Up => FrameModel {
                scroll: if self.scroll > 0 {
                    (self.scroll - 1) as nat
                } else {
                    0
                },
                ..self
            },
        }
    }

    /// The frame after the steps of `steps`, first to last.
    pub open spec fn scrolled_all(self, steps: Seq<ScrollStep>) -> FrameModel
        decreases steps.len(),
    {
        if steps.len() == 0 {
            self
        } else {
            self.scrolled_all(steps.drop_last()).scrolled(steps.last())
        }
    }

    /// Whether the screen position is inside the frame: right of the left
    /// border and below the title row, and not beyond the right border or the
    /// bottom border.
    pub open spec fn contains(self, x: int, y: int) -> bool {
        &&& self.x < x < self.x + self.width
        &&& self.y < y < self.y + self.height
    }

    /// The first row of the scrollbar that the thumb covers.
    pub open spec fn thumb_start(self) -> int {
        (self.scroll * self.inner_height()) as int / self.content_len as int
    }

    /// The number of rows of the scrollbar that the thumb covers.
    pub open spec fn thumb_extent(self) -> int {
        self.inner_height() as int / self.content_len as int
    }

    /// Whether the thumb of the scrollbar covers content row `k`. With no
    /// content at all the thumb fills the bar.
    pub open spec fn thumb_at(self, k: int) -> bool {
        self.content_len == 0 || (self.thumb_start() <= k < self.thumb_start()
            + self.thumb_extent())
    }

    /// The cell of the scrollbar in content row `k`.
    pub open spec fn bar(self, k: int) -> Cell {
        Cell::Glyph(
            if self.thumb_at(k) {
                VERTICAL
            } else {
                ' '
            },
        )
    }

    /// The title row.
    pub open spec fn title_row(self) -> Seq<Cell> {
        let w = self.width as int;
        if w == 0 {
            Seq::empty()
        } else if w == 1 {
            seq![Cell::Glyph(TOP_LEFT)]
        } else if w == 2 {
            seq![Cell::Glyph(TOP_LEFT), Cell::Glyph(HORIZONTAL)]
        } else if w == 3 {
            seq![Cell::Glyph(TOP_LEFT), Cell::Glyph(HORIZONTAL), Cell::Glyph(TOP_RIGHT)]
        } else if w == 4 {
            seq![
                Cell::Glyph(TOP_LEFT),
                Cell::Glyph(HORIZONTAL),
                Cell::Glyph(HORIZONTAL),
                Cell::Glyph(TOP_RIGHT),
            ]
        } else {
            let name = fitted(self.title, 0, w - 4);
            let rest = w - 4 - name.len();
            seq![Cell::Glyph(TOP_LEFT), Cell::Glyph(HORIZONTAL), Cell::Glyph(' ')] + name + run(
                ' ',
                if rest > 0 {
                    1
                } else {
                    0
                },
            ) + run(HORIZONTAL, rest - 1) + seq![Cell::Glyph(TOP_RIGHT)]
        }
    }

    /// The bottom border.
    pub open spec fn bottom_row(self) -> Seq<Cell> {
        let w = self.width as int;
        if w == 0 {
            Seq::empty()
        } else if w <= 2 {
            seq![Cell::Glyph(BOTTOM_LEFT)]
        } else {
            seq![Cell::Glyph(BOTTOM_LEFT)] + run(HORIZONTAL, w - 2) + seq![
                Cell::Glyph(BOTTOM_RIGHT),
            ]
        }
    }

    /// The content line that content row `k` shows: the line at the scroll
    /// offset plus `k`, or an empty line below the end of the content.
    pub open spec fn line_at(self, content: Seq<Seq<char>>, k: int) -> Seq<char> {
        if 0 <= self.scroll + k < content.len() {
            content[self.scroll + k]
        } else {
            Seq::empty()
        }
    }

    /// Content row `k`, counted from the row below the title.
    pub open spec fn body_row(self, content: Seq<Seq<char>>, k: int) -> Seq<Cell> {
        let w = self.width as int;
        if w == 0 {
            Seq::empty()
        } else if w == 1 {
            seq![Cell::Glyph(VERTICAL)]
        } else if w == 2 {
            seq![Cell::Glyph(VERTICAL), Cell::Glyph(VERTICAL)]
        } else if w == 3 {
            seq![Cell::Glyph(VERTICAL), self.bar(k), Cell::Glyph(VERTICAL)]
        } else {
            seq![Cell::Glyph(VERTICAL), Cell::Glyph(' ')] + padded(
                self.line_at(content, k),
                w - 4,
            ) + seq![self.bar(k), Cell::Glyph(VERTICAL)]
        }
    }

    /// Row `i` of the frame.
    pub open spec fn row(self, content: Seq<Seq<char>>, i: int) -> Seq<Cell> {
        if i == 0 {
            self.title_row()
        } else if i == self.height - 1 {
            self.bottom_row()
        } else {
            self.body_row(content, i - 1)
        }
    }

    /// All the rows of the frame, top to bottom.
    pub open spec fn picture(self, content: Seq<Seq<char>>) -> Seq<Seq<Cell>> {
        Seq::new(self.height, |i: int| self.row(content, i))
    }

    /// The drawing of the frame around `content`: its picture, at its place.
    pub open spec fn drawing(self, content: Seq<Seq<char>>) -> DrawingModel {
        DrawingModel { x: self.x, y: self.y, rows: self.picture(content) }
    }
}

/// The lines of `content`, each as its characters.
pub open spec fn lines(content: Seq<String>) -> Seq<Seq<char>> {
    Seq::new(content.len(), |i: int| content[i]@)
}

/// The rows of `rows`, each as its cells.
pub open spec fn grid(rows: Seq<Vec<Cell>>) -> Seq<Seq<Cell>> {
    Seq::new(rows.len(), |i: int| rows[i]@)
}

/// A bordered rectangle on the terminal that shows lines of text.
pub struct Frame {
    title: String,
    x: u16,
    y: u16,
    width: u16,
    height: u16,
    start_line: usize,
    contl: usize,
}

impl View for Frame {
    type V = FrameModel;

    closed spec fn view(&self) -> FrameModel {
        FrameModel {
            title: self.title@,
            x: self.x as nat,
            y: self.y as nat,
            width: self.width as nat,
            height: self.height as nat,
            scroll: self.start_line as nat,
            content_len: self.contl as nat,
        }
    }
}

impl Frame {
    #[verifier::type_invariant]
    closed spec fn scroll_in_range(&self) -> bool {
        self@.clamped()
    }

    /// A frame at `(x, y)` of `w` columns and `h` rows, with nothing drawn
    /// yet.
    pub fn new(title: String, x: u16, y: u16, w: u16, h: u16) -> (frame: Frame)
        ensures
            frame@ == (FrameModel {
                title: title@,
                x: x as nat,
                y: y as nat,
                width: w as nat,
                height: h as nat,
                scroll: 0,
                content_len: 0,
            }),
    {
        Frame { title, x, y, width: w, height: h, start_line: 0, contl: 0 }
    }

    /// Moves the frame to column `x`.
    pub fn set_x(&mut self, x: u16)
        ensures
            final(self)@ == (FrameModel { x: x as nat, ..old(self)@ }),
    {
        proof {
            use_type_invariant(&*self);
        }
        self.x = x;
    }

    /// Moves the frame to row `y`.
    pub fn set_y(&mut self, y: u16)
        ensures
            final(self)@ == (FrameModel { y: y as nat, ..old(self)@ }),
    {
        proof {
            use_type_invariant(&*self);
        }
        self.y = y;
    }

    /// Resizes the frame to `width` columns.
    pub fn set_width(&mut self, width: u16)
        ensures
            final(self)@ == (FrameModel { width: width as nat, ..old(self)@ }),
    {
        proof {
            use_type_invariant(&*self);
        }
        self.width = width;
    }

    /// Resizes the frame to `height` rows. The scroll offset is brought back
    /// into range where the taller frame leaves less to scroll.
    pub fn set_height(&mut self, height: u16)
        ensures
            final(self)@ == old(self)@.with_height(height as nat),
            final(self)@.clamped(),
    {
        proof {
            use_type_invariant(&*self);
        }
        let inner: usize = if height >= 2 {
            (height - 2) as usize
        } else {
            0
        };
        let max: usize = if self.contl > inner {
            self.contl - inner
        } else {
            0
        };
        if self.start_line > max {
            self.start_line = max;
        }
        self.height = height;
    }

    /// Moves and resizes the frame to `place`.
    pub fn place(&mut self, place: &Rect)
        ensures
            final(self)@ == old(self)@.placed(*place),
            final(self)@.clamped(),
    {
        self.set_x(place.x);
        self.set_y(place.y);
        self.set_width(place.width);
        self.set_height(place.height);
    }

    /// The column of the left border.
    pub fn get_x(&self) -> (x: u16)
        ensures
            x == self@.x,
    {
        self.x
    }

    /// The row of the title.
    pub fn get_y(&self) -> (y: u16)
        ensures
            y == self@.y,
    {
        self.y
    }

    /// The number of columns.
    pub fn get_width(&self) -> (width: u16)
        ensures
            width == self@.width,
    {
        self.width
    }

    /// The number of rows.
    pub fn get_height(&self) -> (height: u16)
        ensures
            height == self@.height,
    {
        self.height
    }

    /// The scroll offset: the index of the content line shown in the first
    /// row below the title. It is never beyond what the content, as of the
    /// last drawing, has more than the frame can show.
    pub fn get_start(&self) -> (start: usize)
        ensures
            start == self@.scroll,
            self@.clamped(),
    {
        proof {
            use_type_invariant(&*self);
        }
        self.start_line
    }

    /// Whether the screen position `(x, y)` is inside the frame.
    pub fn in_frame(&self, x: u16, y: u16) -> (inside: bool)
        ensures
            inside == self@.contains(x as int, y as int),
    {
        x > self.x && (x as u32) < self.x as u32 + self.width as u32 && y > self.y && (y as u32)
            < self.y as u32 + self.height as u32
    }

    /// Scrolls one line towards the end of the content, unless the last line
    /// is already in view.
    pub fn inc_start(&mut self)
        ensures
            final(self)@ == old(self)@.scrolled(ScrollStep::Down),
            final(self)@.clamped(),
    {
        proof {
            use_type_invariant(&*self);
        }
        if self.start_line < self.max_start() {
            self.start_line = self.start_line + 1;
        }
    }

    /// Scrolls one line towards the start of the content, unless the first
    /// line is already in view.
    pub fn dec_start(&mut self)
        ensures
            final(self)@ == old(self)@.scrolled(ScrollStep::Up),
            final(self)@.clamped(),
    {
        proof {
            use_type_invariant(&*self);
        }
        if self.start_line != 0 {
            self.start_line = self.start_line - 1;
        }
    }

    /// The number of rows between the title and the bottom border.
    fn inner(&self) -> (inner: usize)
        ensures
            inner == self@.inner_height(),
    {
        if self.height >= 2 {
            (self.height - 2) as usize
        } else {
            0
        }
    }

    /// The largest scroll offset.
    fn max_start(&self) -> (max: usize)
        ensures
            max == self@.max_scroll(),
    {
        let inner = self.inner();
        if self.contl > inner {
            self.contl - inner
        } else {
            0
        }
    }

    /// Whether the thumb of the scrollbar covers content row `k`.
    fn thumb(&self, k: u16) -> (covered: bool)
        ensures
            covered == self@.thumb_at(k as int),
    {
        if self.contl == 0 {
            return true;
        }
        let inner: u128 = self.inner() as u128;
        let len: u128 = self.contl as u128;
        let offset: u128 = self.start_line as u128;
        assert(offset * inner <= 0xffff_ffff_ffff_ffff * 0xffff) by (nonlinear_arith)
            requires
                0 <= offset <= 0xffff_ffff_ffff_ffff,
                0 <= inner <= 0xffff,
        ;
        let product: u128 = offset * inner;
        let start: u128 = product / len;
        let extent: u128 = inner / len;
        start <= k as u128 && (k as u128) < start + extent
    }

    /// The cell of the scrollbar in content row `k`.
    fn bar_cell(&self, k: u16) -> (cell: Cell)
        ensures
            cell == self@.bar(k as int),
    {
        if self.thumb(k) {
            Cell::Glyph(VERTICAL)
        } else {
            Cell::Glyph(' ')
        }
    }

    /// The cells of the title row.
    fn title_cells(&self) -> (row: Vec<Cell>)
        ensures
            row@ == self@.title_row(),
    {
        let mut row: Vec<Cell> = Vec::new();
        let w = self.width;
        if w == 1 {
            row.push(Cell::Glyph(TOP_LEFT));
        } else if w == 2 {
            row.push(Cell::Glyph(TOP_LEFT));
            row.push(Cell::Glyph(HORIZONTAL));
        } else if w == 3 {
            row.push(Cell::Glyph(TOP_LEFT));
            row.push(Cell::Glyph(HORIZONTAL));
            row.push(Cell::Glyph(TOP_RIGHT));
        } else if w == 4 {
            row.push(Cell::Glyph(TOP_LEFT));
            row.push(Cell::Glyph(HORIZONTAL));
            row.push(Cell::Glyph(HORIZONTAL));
            row.push(Cell::Glyph(TOP_RIGHT));
        } else if w >= 5 {
            let room: usize = (w - 4) as usize;
            let title = to_chars(self.title.as_str());
            row.push(Cell::Glyph(TOP_LEFT));
            row.push(Cell::Glyph(HORIZONTAL));
            row.push(Cell::Glyph(' '));
            let used = push_fitted(&mut row, &title, room);
            let rest: usize = room - used;
            if rest > 0 {
                row.push(Cell::Glyph(' '));
                push_run(&mut row, HORIZONTAL, rest - 1);
            }
            row.push(Cell::Glyph(TOP_RIGHT));
        }
        row
    }

    /// The cells of the bottom border.
    fn bottom_cells(&self) -> (row: Vec<Cell>)
        ensures
            row@ == self@.bottom_row(),
    {
        let mut row: Vec<Cell> = Vec::new();
        let w = self.width;
        if w > 0 {
            row.push(Cell::Glyph(BOTTOM_LEFT));
            if w > 2 {
                push_run(&mut row, HORIZONTAL, (w - 2) as usize);
                row.push(Cell::Glyph(BOTTOM_RIGHT));
            }
        }
        row
    }

    /// The cells of content row `k`.
    fn body_cells(&self, cont: &Vec<String>, k: u16) -> (row: Vec<Cell>)
        ensures
            row@ == self@.body_row(lines(cont@), k as int),
    {
        let mut row: Vec<Cell> = Vec::new();
        let w = self.width;
        if w == 1 {
            row.push(Cell::Glyph(VERTICAL));
        } else if w == 2 {
            row.push(Cell::Glyph(VERTICAL));
            row.push(Cell::Glyph(VERTICAL));
        } else if w == 3 {
            row.push(Cell::Glyph(VERTICAL));
            row.push(self.bar_cell(k));
            row.push(Cell::Glyph(VERTICAL));
        } else if w >= 4 {
            let n = cont.len();
            let at = self.start_line.checked_add(k as usize);
            let line: Vec<char> = if at.is_some() && at.unwrap() < n {
                to_chars(cont[at.unwrap()].as_str())
            } else {
                Vec::new()
            };
            row.push(Cell::Glyph(VERTICAL));
            row.push(Cell::Glyph(' '));
            push_padded(&mut row, &line, (w - 4) as usize);
            row.push(self.bar_cell(k));
            row.push(Cell::Glyph(VERTICAL));
        }
        row
    }

    /// Draws the frame around `cont`: returns its rows, top to bottom, and
    /// where they go on the screen.
    ///
    /// The frame takes note of the number of lines, and brings its scroll
    /// offset back into range where the content has become shorter.
    pub fn print(&mut self, cont: &Vec<String>) -> (drawing: Drawing)
        ensures
            final(self)@ == old(self)@.with_content(cont@.len()),
            final(self)@.clamped(),
            drawing@ == final(self)@.drawing(lines(cont@)),
    {
        proof {
            use_type_invariant(&*self);
        }
        let n = cont.len();
        let inner = self.inner();
        let max: usize = if n > inner {
            n - inner
        } else {
            0
        };
        if self.start_line > max {
            self.start_line = max;
        }
        self.contl = n;
        let mut rows: Vec<Vec<Cell>> = Vec::new();
        let mut i: u16 = 0;
        while i < self.height
            invariant
                i <= self.height,
                self@ == old(self)@.with_content(cont@.len()),
                rows@.len() == i,
                forall|j: int| 0 <= j < i ==> (#[trigger] rows@[j])@ == self@.row(lines(cont@), j),
            decreases self.height - i,
        {
            let row = if i == 0 {
                self.title_cells()
            } else if i == self.height - 1 {
                self.bottom_cells()
            } else {
                self.body_cells(cont, i - 1)
            };
            rows.push(row);
            i = i + 1;
        }
        assert(grid(rows@) =~= self@.picture(lines(cont@)));
        Drawing { x: self.x, y: self.y, rows }
    }
}

/// Drawing is idempotent: a frame that has drawn `content` and draws it
/// again, with no scrolling between, stays as it is and gives the same
/// drawing.
pub proof fn lemma_print_idempotent(frame: FrameModel, content: Seq<Seq<char>>)
    ensures
        frame.with_content(content.len()).with_content(content.len()) == frame.with_content(
            content.len(),
        ),
        frame.with_content(content.len()).with_content(content.len()).drawing(content)
            == frame.with_content(content.len()).drawing(content),
{
}

/// After a drawing, the scroll offset is in its range, between zero and what
/// the content has more than the frame can show, and it stays there through
/// any sequence of scrolling steps.
pub proof fn lemma_scroll_stays_clamped(frame: FrameModel, n: nat, steps: Seq<ScrollStep>)
    ensures
        frame.with_content(n).scrolled_all(steps).clamped(),
        frame.with_content(n).scrolled_all(steps).content_len == n,
        frame.with_content(n).scrolled_all(steps).height == frame.height,
    decreases steps.len(),
{
    if steps.len() > 0 {
        lemma_scroll_stays_clamped(frame, n, steps.drop_last());
    }
}

/// Every row of a picture stays inside the frame, and every row that shows
/// content takes the full width of the frame and holds only whole glyphs:
/// no wide character is cut in two, whatever the content.
pub proof fn lemma_rows_whole(frame: FrameModel, content: Seq<Seq<char>>, i: int)
    requires
        0 <= i < frame.height,
    ensures
        frame.row(content, i).len() <= frame.width,
        whole_glyphs(frame.row(content, i)),
        0 < i < frame.height - 1 ==> frame.row(content, i).len() == frame.width,
        i == 0 ==> frame.row(content, i).len() == frame.width,
        frame.width != 2 ==> frame.row(content, i).len() == frame.width,
{
    let w = frame.width as int;
    let row = frame.row(content, i);
    if i == 0 {
        if w > 4 {
            let name = fitted(frame.title, 0, w - 4);
            lemma_fitted(frame.title, 0, w - 4);
            let rest = w - 4 - name.len();
            let head = seq![Cell::Glyph(TOP_LEFT), Cell::Glyph(HORIZONTAL), Cell::Glyph(' ')];
            let gap = run(' ', if rest > 0 { 1int } else { 0int });
            let fill = run(HORIZONTAL, rest - 1);
            let end = seq![Cell::Glyph(TOP_RIGHT)];
            lemma_plain_whole(head);
            lemma_plain_whole(gap);
            lemma_plain_whole(fill);
            lemma_plain_whole(end);
            lemma_whole_glyphs_join(head, name);
            lemma_whole_glyphs_join(head + name, gap);
            lemma_whole_glyphs_join(head + name + gap, fill);
            lemma_whole_glyphs_join(head + name + gap + fill, end);
        } else {
            lemma_plain_whole(row);
        }
    } else if i == frame.height - 1 {
        lemma_plain_whole(row);
    } else {
        if w > 3 {
            let line = frame.line_at(content, i - 1);
            lemma_padded(line, w - 4);
            let head = seq![Cell::Glyph(VERTICAL), Cell::Glyph(' ')];
            let end = seq![frame.bar(i - 1), Cell::Glyph(VERTICAL)];
            lemma_plain_whole(head);
            lemma_plain_whole(end);
            lemma_whole_glyphs_join(head, padded(line, w - 4));
            lemma_whole_glyphs_join(head + padded(line, w - 4), end);
        } else {
            lemma_plain_whole(row);
        }
    }
}

} // verus!
