//! Where the five panels stand on a terminal of a given size.
//!
//! The registers panel has a fixed width at the left edge, the memory panel a
//! fixed width at the right edge. What is left between them is shared by the
//! column of the disassembly and options panels, whose width is half of it
//! within fixed limits, and the source panel, which takes the rest.

use vstd::prelude::*;

verus! {

/// The width of the registers panel.
pub const REGISTER_WIDTH: u16 = 19;

/// The width of the memory panel, where the terminal has room for it.
pub const MEMORY_WIDTH: u16 = 58;

/// The least width of the disassembly and options column, where the terminal
/// has room for it.
pub const MIN_COLUMN_WIDTH: u16 = 44;

/// The greatest width of the disassembly and options column.
pub const MAX_COLUMN_WIDTH: u16 = 76;

/// The height of the options panel.
pub const OPTIONS_HEIGHT: u16 = 5;

/// A rectangle of terminal cells.
#[derive(Clone, Copy, Debug, PartialEq, Eq, Structural)]
pub struct Rect {
    /// The leftmost column.
    pub x: u16,
    /// The topmost row.
    pub y: u16,
    /// The number of columns.
    pub width: u16,
    /// The number of rows.
    pub height: u16,
}

impl Rect {
    /// Whether the two rectangles have a cell in common.
    pub open spec fn overlaps(self, other: Rect) -> bool {
        &&& self.x < other.x + other.width
        &&& other.x < self.x + self.width
        &&& self.y < other.y + other.height
        &&& other.y < self.y + self.height
    }
}

/// The rectangles of the five panels.
#[derive(Clone, Copy, Debug, PartialEq, Eq, Structural)]
pub struct Layout {
    /// The registers panel: fixed width, at the left edge, full height.
    pub registers: Rect,
    /// The disassembly panel: the upper part of the column right of the
    /// registers.
    pub disassembly: Rect,
    /// The options panel: fixed height, right below the disassembly.
    pub options: Rect,
    /// The source panel: right of the column, full height.
    pub source: Rect,
    /// The memory panel: fixed width, at the right edge, full height.
    pub memory: Rect,
}

/// The width that the registers and memory panels leave free on a terminal
/// of `width` columns.
pub open spec fn residual(width: int) -> int {
    if width > REGISTER_WIDTH + MEMORY_WIDTH {
        width - REGISTER_WIDTH - MEMORY_WIDTH
    } else {
        0
    }
}

/// The width of the disassembly and options column, given the residual
/// width: all of it while it is no more than the least column width, else
/// half of it, kept between the least and the greatest column width.
pub open spec fn column_width(residual: int) -> int {
    if residual <= MIN_COLUMN_WIDTH {
        residual
    } else if residual / 2 < MIN_COLUMN_WIDTH {
        MIN_COLUMN_WIDTH as int
    } else if residual / 2 > MAX_COLUMN_WIDTH {
        MAX_COLUMN_WIDTH as int
    } else {
        residual / 2
    }
}

/// The width of the memory panel on a terminal of `width` columns: its fixed
/// width, or what the registers panel leaves where that is less.
pub open spec fn memory_width(width: int) -> int {
    if width <= REGISTER_WIDTH {
        0
    } else if width - REGISTER_WIDTH < MEMORY_WIDTH {
        width - REGISTER_WIDTH
    } else {
        MEMORY_WIDTH as int
    }
}

/// The height of the disassembly panel on a terminal of `height` rows: what
/// the options panel leaves.
pub open spec fn disassembly_height(height: int) -> int {
    if height > OPTIONS_HEIGHT {
        height - OPTIONS_HEIGHT
    } else {
        0
    }
}

/// The layout of a terminal of `width` columns and `height` rows.
pub open spec fn arrangement(width: u16, height: u16) -> Layout {
    let rest = residual(width as int);
    let column = column_width(rest);
    let upper = disassembly_height(height as int);
    Layout {
        registers: Rect { x: 0, y: 0, width: REGISTER_WIDTH, height },
        disassembly: Rect {
            x: REGISTER_WIDTH,
            y: 0,
            width: column as u16,
            height: upper as u16,
        },
        options: Rect {
            x: REGISTER_WIDTH,
            y: upper as u16,
            width: column as u16,
            height: OPTIONS_HEIGHT,
        },
        source: Rect {
            x: (REGISTER_WIDTH + column) as u16,
            y: 0,
            width: (rest - column) as u16,
            height,
        },
        memory: Rect {
            x: (REGISTER_WIDTH + rest) as u16,
            y: 0,
            width: memory_width(width as int) as u16,
            height,
        },
    }
}

impl Layout {
    /// Lays the five panels out on a terminal of `width` columns and `height`
    /// rows.
    pub fn compute(width: u16, height: u16) -> (layout: Layout)
        ensures
            layout == arrangement(width, height),
    {
        let rest: u16 = if width > REGISTER_WIDTH + MEMORY_WIDTH {
            width - REGISTER_WIDTH - MEMORY_WIDTH
        } else {
            0
        };
        let column: u16 = if rest <= MIN_COLUMN_WIDTH {
            rest
        } else if rest / 2 < MIN_COLUMN_WIDTH {
            MIN_COLUMN_WIDTH
        } else if rest / 2 > MAX_COLUMN_WIDTH {
            MAX_COLUMN_WIDTH
        } else {
            rest / 2
        };
        let memory: u16 = if width <= REGISTER_WIDTH {
            0
        } else if width - REGISTER_WIDTH < MEMORY_WIDTH {
            width - REGISTER_WIDTH
        } else {
            MEMORY_WIDTH
        };
        let upper: u16 = if height > OPTIONS_HEIGHT {
            height - OPTIONS_HEIGHT
        } else {
            0
        };
        Layout {
            registers: Rect { x: 0, y: 0, width: REGISTER_WIDTH, height },
            disassembly: Rect { x: REGISTER_WIDTH, y: 0, width: column, height: upper },
            options: Rect { x: REGISTER_WIDTH, y: upper, width: column, height: OPTIONS_HEIGHT },
            source: Rect { x: REGISTER_WIDTH + column, y: 0, width: rest - column, height },
            memory: Rect { x: REGISTER_WIDTH + rest, y: 0, width: memory, height },
        }
    }
}

/// On every terminal the widths of the layout are what the formulas give,
/// none of them negative, and the disassembly and options column is no wider
/// than its greatest width and no narrower than its least width, or than the
/// residual width where that is less.
pub proof fn lemma_column_bounds(width: u16, height: u16)
    ensures
        0 <= residual(width as int),
        0 <= column_width(residual(width as int)) <= residual(width as int),
        0 <= memory_width(width as int),
        arrangement(width, height).disassembly.width == column_width(residual(width as int)),
        arrangement(width, height).options.width == column_width(residual(width as int)),
        arrangement(width, height).source.width == residual(width as int) - column_width(
            residual(width as int),
        ),
        arrangement(width, height).memory.width == memory_width(width as int),
        arrangement(width, height).disassembly.height == disassembly_height(height as int),
        arrangement(width, height).disassembly.width <= MAX_COLUMN_WIDTH,
        residual(width as int) >= MIN_COLUMN_WIDTH ==> arrangement(width, height).disassembly.width
            >= MIN_COLUMN_WIDTH,
        residual(width as int) < MIN_COLUMN_WIDTH ==> arrangement(width, height).disassembly.width
            == residual(width as int),
{
}

/// On a terminal at least as wide as the registers panel, no panel reaches
/// beyond the right edge, the panels stand side by side without overlap, and
/// the memory panel ends at the right edge.
pub proof fn lemma_layout_fits(width: u16, height: u16)
    requires
        width >= REGISTER_WIDTH,
    ensures
        ({
            let l = arrangement(width, height);
            &&& l.registers.x == 0
            &&& l.registers.x + l.registers.width == l.disassembly.x
            &&& l.disassembly.x == l.options.x
            &&& l.disassembly.x + l.disassembly.width == l.source.x
            &&& l.source.x + l.source.width == l.memory.x
            &&& l.memory.x + l.memory.width == width
            &&& l.registers.x + l.registers.width <= width
            &&& l.disassembly.x + l.disassembly.width <= width
            &&& l.options.x + l.options.width <= width
            &&& l.source.x + l.source.width <= width
        }),
{
}

/// On every terminal, no two panels have a cell in common.
pub proof fn lemma_panels_apart(width: u16, height: u16)
    ensures
        ({
            let l = arrangement(width, height);
            &&& !l.registers.overlaps(l.disassembly)
            &&& !l.registers.overlaps(l.options)
            &&& !l.registers.overlaps(l.source)
            &&& !l.registers.overlaps(l.memory)
            &&& !l.disassembly.overlaps(l.options)
            &&& !l.disassembly.overlaps(l.source)
            &&& !l.disassembly.overlaps(l.memory)
            &&& !l.options.overlaps(l.source)
            &&& !l.options.overlaps(l.memory)
            &&& !l.source.overlaps(l.memory)
        }),
{
}

/// The disassembly panel stands at the top of its column and the options
/// panel right below it.
pub proof fn lemma_column_stacks(width: u16, height: u16)
    ensures
        ({
            let l = arrangement(width, height);
            &&& l.disassembly.y == 0
            &&& l.options.y == l.disassembly.y + l.disassembly.height
            &&& l.options.height == OPTIONS_HEIGHT
            &&& height >= OPTIONS_HEIGHT ==> l.options.y + l.options.height == height
        }),
{
}

} // verus!
