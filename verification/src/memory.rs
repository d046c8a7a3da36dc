//! The memory panel. It has a frame and, so far, nothing to show in it.

use crate::frame::{lines, Drawing, Frame, FrameModel};
use crate::layout::MEMORY_WIDTH;
use vstd::prelude::*;
use vstd::string::*;

verus! {

/// The memory panel.
pub struct Memory {
    frame: Frame,
}

impl View for Memory {
    type V = FrameModel;

    closed spec fn view(&self) -> FrameModel {
        self.frame@
    }
}

impl Memory {
    /// The panel at `(x, y)` of `w` columns and `h` rows.
    pub fn new(x: u16, y: u16, w: u16, h: u16) -> (panel: Memory)
        ensures
            panel@ == (FrameModel {
                title: "Memory"@,
                x: x as nat,
                y: y as nat,
                width: w as nat,
                height: h as nat,
                scroll: 0,
                content_len: 0,
            }),
    {
        Memory { frame: Frame::new(String::from_str("Memory"), x, y, w, h) }
    }

    /// The width of the panel, where the terminal has room for it.
    pub fn width() -> (w: u16)
        ensures
            w == MEMORY_WIDTH,
    {
        MEMORY_WIDTH
    }

    /// The frame of the panel, to move or resize it.
    pub fn get_frame(&mut self) -> (frame: &mut Frame)
        ensures
            frame@ == old(self)@,
            final(self)@ == final(frame)@,
    {
        &mut self.frame
    }

    /// Draws the panel, which has no content.
    pub fn print(&mut self) -> (drawing: Drawing)
        ensures
            final(self)@ == old(self)@.with_content(0),
            drawing@ == final(self)@.drawing(Seq::empty()),
    {
        let cont: Vec<String> = Vec::new();
        assert(lines(cont@) =~= Seq::<Seq<char>>::empty());
        self.frame.print(&cont)
    }
}

} // verus!
