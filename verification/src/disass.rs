//! The disassembly panel: the instruction listing of the debugged program,
//! shown around the instruction that the machine is about to execute.
//!
//! The listing is taken once and never changes. Each of its lines starts with
//! a label, the text before the first colon, and a line stands for the
//! instruction at an address when its label ends with that address in
//! hexadecimal. The panel also keeps the table of breakpoints: for each
//! breakpoint number, the address that it guards.

use crate::frame::{lines, Drawing, Frame, FrameModel};
use crate::layout::MAX_COLUMN_WIDTH;
use crate::text::{ends_with, find_char, has_suffix, hex, hex_chars, position_of, to_chars};
use std::collections::HashMap;
use vstd::prelude::*;
use vstd::string::*;

verus! {

/// The number of lines shown above the current instruction.
pub const LEAD_LINES: usize = 5;

/// The label of a line of the listing: the text before its first colon, or
/// the whole line when it has none.
pub open spec fn label(line: Seq<char>) -> Seq<char> {
    line.take(position_of(line, ':', 0))
}

/// Whether `line` stands for the instruction at `address`.
pub open spec fn names(line: Seq<char>, address: u64) -> bool {
    ends_with(label(line), hex(address as nat))
}

/// The index of the first line of `listing`, at or after `from`, that stands
/// for the instruction at `address`; the length of the listing when there is
/// none.
pub open spec fn first_naming(listing: Seq<Seq<char>>, address: u64, from: int) -> int
    decreases listing.len() - from,
{
    if from < 0 || from >= listing.len() {
        listing.len() as int
    } else if names(listing[from], address) {
        from
    } else {
        first_naming(listing, address, from + 1)
    }
}

/// What a disassembly panel is, as mathematics.
pub struct DisassemblyModel {
    /// The frame of the panel.
    pub frame: FrameModel,
    /// The lines of the listing.
    pub listing: Seq<Seq<char>>,
    /// The address of the instruction that the machine is about to execute.
    pub rip: u64,
    /// How many lines the user has scrolled away from that instruction,
    /// towards the end of the listing where positive.
    pub scroll: int,
    /// For each breakpoint number, the address that it guards.
    pub breakpoints: Map<usize, u64>,
}

impl DisassemblyModel {
    /// The index of the line of the current instruction: the first line of
    /// the listing that stands for the instruction pointer. None when no line
    /// does.
    pub open spec fn current_line(self) -> Option<int> {
        let at = first_naming(self.listing, self.rip, 0);
        if at < self.listing.len() {
            Some(at)
        } else {
            None
        }
    }

    /// The index of the first line in view: a fixed number of lines above the
    /// current instruction, moved by the scroll offset, and kept inside the
    /// listing.
    pub open spec fn window_start(self) -> int {
        let start = self.current_line().unwrap() - LEAD_LINES + self.scroll;
        if start < 0 {
            0
        } else if start > self.listing.len() {
            self.listing.len() as int
        } else {
            start
        }
    }

    /// The index after the last line in view: as many lines as the frame has
    /// rows for, or as the listing still has.
    pub open spec fn window_end(self) -> int {
        let end = self.window_start() + self.frame.inner_height();
        if end > self.listing.len() {
            self.listing.len() as int
        } else {
            end
        }
    }

    /// The lines in view.
    pub open spec fn window(self) -> Seq<Seq<char>> {
        self.listing.subrange(self.window_start(), self.window_end())
    }

    /// The panel after one step of scrolling towards the end of the listing.
    pub open spec fn scrolled_down(self) -> DisassemblyModel {
        DisassemblyModel {
            scroll: if self.scroll < isize::MAX {
                self.scroll + 1
            } else {
                self.scroll
            },
            ..self
        }
    }

    /// The panel after one step of scrolling towards the start of the
    /// listing.
    pub open spec fn scrolled_up(self) -> DisassemblyModel {
        DisassemblyModel {
            scroll: if self.scroll > isize::MIN {
                self.scroll - 1
            } else {
                self.scroll
            },
            ..self
        }
    }

    /// The panel after the machine halted at `rip`: the view is back around
    /// the current instruction.
    pub open spec fn halted_at(self, rip: u64) -> DisassemblyModel {
        DisassemblyModel { rip, scroll: 0, ..self }
    }
}

/// The disassembly panel.
pub struct Disassembly {
    frame: Frame,
    disass: Vec<String>,
    rip: u64,
    scroll: isize,
    bp_table: HashMap<usize, u64>,
}

impl View for Disassembly {
    type V = DisassemblyModel;

    closed spec fn view(&self) -> DisassemblyModel {
        DisassemblyModel {
            frame: self.frame@,
            listing: lines(self.disass@),
            rip: self.rip,
            scroll: self.scroll as int,
            breakpoints: self.bp_table@,
        }
    }
}

impl Disassembly {
    /// The panel at `(x, y)` of `w` columns and `h` rows that shows
    /// `listing`, with the instruction pointer at zero, nothing scrolled and
    /// no breakpoint known.
    pub fn new(listing: Vec<String>, x: u16, y: u16, w: u16, h: u16) -> (panel: Disassembly)
        ensures
            panel@ == (DisassemblyModel {
                frame: FrameModel {
                    title: "Disassembly"@,
                    x: x as nat,
                    y: y as nat,
                    width: w as nat,
                    height: h as nat,
                    scroll: 0,
                    content_len: 0,
                },
                listing: lines(listing@),
                rip: 0,
                scroll: 0,
                breakpoints: Map::empty(),
            }),
    {
        Disassembly {
            frame: Frame::new(String::from_str("Disassembly"), x, y, w, h),
            disass: listing,
            rip: 0,
            scroll: 0,
            bp_table: HashMap::new(),
        }
    }

    /// The table of breakpoints.
    pub fn get_breakpoints(&self) -> (table: &HashMap<usize, u64>)
        ensures
            table@ == self@.breakpoints,
    {
        &self.bp_table
    }

    /// Takes note that the breakpoint `bp` guards `address`.
    pub fn record_breakpoint(&mut self, bp: usize, address: u64)
        ensures
            final(self)@ == (DisassemblyModel {
                breakpoints: old(self)@.breakpoints.insert(bp, address),
                ..old(self)@
            }),
    {
        self.bp_table.insert(bp, address);
    }

    /// Takes note that the machine halted at `rip`, and brings the view back
    /// around the current instruction.
    pub fn set_rip(&mut self, rip: u64)
        ensures
            final(self)@ == old(self)@.halted_at(rip),
    {
        self.rip = rip;
        self.scroll = 0;
    }

    /// The greatest width of the panel.
    pub fn max_width() -> (w: u16)
        ensures
            w == MAX_COLUMN_WIDTH,
    {
        MAX_COLUMN_WIDTH
    }

    /// The frame of the panel, to move or resize it.
    pub fn get_frame(&mut self) -> (frame: &mut Frame)
        ensures
            frame@ == old(self)@.frame,
            final(self)@ == (DisassemblyModel { frame: final(frame)@, ..old(self)@ }),
    {
        &mut self.frame
    }

    /// Finds the line of the current instruction by reading the listing from
    /// the top. None when no line stands for the instruction pointer.
    pub fn locate(&self) -> (at: Option<usize>)
        ensures
            match at {
                Some(i) => self@.current_line() == Some(i as int),
                None => self@.current_line() is None,
            },
    {
        let key = hex_chars(self.rip);
        let mut i: usize = 0;
        while i < self.disass.len()
            invariant
                i <= self.disass@.len(),
                key@ == hex(self.rip as nat),
                first_naming(self@.listing, self.rip, 0) == first_naming(
                    self@.listing,
                    self.rip,
                    i as int,
                ),
            decreases self.disass@.len() - i,
        {
            let line = to_chars(self.disass[i].as_str());
            let colon = find_char(&line, ':', 0);
            if has_suffix(&line, colon, &key) {
                return Some(i);
            }
            i = i + 1;
        }
        None
    }

    /// The lines in view, given the index of the line of the current
    /// instruction.
    fn window_lines(&self, current: usize) -> (cont: Vec<String>)
        requires
            self@.current_line() == Some(current as int),
        ensures
            lines(cont@) == self@.window(),
    {
        let len = self.disass.len();
        let start: i128 = current as i128 - LEAD_LINES as i128 + self.scroll as i128;
        let top: usize = if start < 0 {
            0
        } else if start > len as i128 {
            len
        } else {
            start as usize
        };
        let height = self.frame.get_height();
        let inner: usize = if height >= 2 {
            (height - 2) as usize
        } else {
            0
        };
        let count: usize = if inner > len - top {
            len - top
        } else {
            inner
        };
        let bottom: usize = top + count;
        let mut cont: Vec<String> = Vec::new();
        let mut i: usize = top;
        while i < bottom
            invariant
                top <= i <= bottom <= self.disass@.len(),
                lines(cont@) == self@.listing.subrange(top as int, i as int),
            decreases bottom - i,
        {
            let line = self.disass[i].clone();
            let ghost before = lines(cont@);
            let ghost text = line@;
            cont.push(line);
            i = i + 1;
            assert(lines(cont@) =~= before.push(text));
        }
        cont
    }

    /// Draws the panel around the lines in view.
    ///
    /// The instruction pointer must be an address of the listing.
    pub fn print(&mut self) -> (drawing: Drawing)
        requires
            old(self)@.current_line() is Some,
        ensures
            final(self)@ == (DisassemblyModel {
                frame: old(self)@.frame.with_content(old(self)@.window().len()),
                ..old(self)@
            }),
            drawing@ == final(self)@.frame.drawing(old(self)@.window()),
    {
        let current = self.locate().unwrap();
        let cont = self.window_lines(current);
        self.frame.print(&cont)
    }

    /// Scrolls the view one line towards the end of the listing.
    pub fn scroll_down(&mut self)
        ensures
            final(self)@ == old(self)@.scrolled_down(),
    {
        if self.scroll < isize::MAX {
            self.scroll = self.scroll + 1;
        }
    }

    /// Scrolls the view one line towards the start of the listing.
    pub fn scroll_up(&mut self)
        ensures
            final(self)@ == old(self)@.scrolled_up(),
    {
        if self.scroll > isize::MIN {
            self.scroll = self.scroll - 1;
        }
    }
}

/// After the machine halted at an address of the listing, nothing is
/// scrolled, and the view starts five lines above the line of that address,
/// or at the first line where there are fewer than five above it.
pub proof fn lemma_view_after_halt(panel: DisassemblyModel, rip: u64)
    requires
        panel.halted_at(rip).current_line() is Some,
    ensures
        panel.halted_at(rip).scroll == 0,
        panel.halted_at(rip).current_line() == Some(first_naming(panel.listing, rip, 0)),
        0 <= first_naming(panel.listing, rip, 0) < panel.listing.len(),
        names(panel.listing[first_naming(panel.listing, rip, 0)], rip),
        panel.halted_at(rip).window_start() == (if first_naming(panel.listing, rip, 0)
            >= LEAD_LINES {
            first_naming(panel.listing, rip, 0) - LEAD_LINES
        } else {
            0
        }),
{
    lemma_first_naming(panel.listing, rip, 0);
}

/// The first line that stands for an address, looked for from `from` on, is
/// not before `from`; it does stand for the address, if there is one; and no
/// line between `from` and it does.
pub proof fn lemma_first_naming(listing: Seq<Seq<char>>, address: u64, from: int)
    requires
        0 <= from <= listing.len(),
    ensures
        from <= first_naming(listing, address, from) <= listing.len(),
        first_naming(listing, address, from) < listing.len() ==> names(
            listing[first_naming(listing, address, from)],
            address,
        ),
        forall|i: int|
            from <= i < first_naming(listing, address, from) ==> !names(
                #[trigger] listing[i],
                address,
            ),
    decreases listing.len() - from,
{
    if from < listing.len() && !names(listing[from], address) {
        lemma_first_naming(listing, address, from + 1);
    }
}

} // verus!
