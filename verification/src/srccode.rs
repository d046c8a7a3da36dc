//! The source panel. It has a frame and, so far, one empty line to show in
//! it.

use crate::frame::{lines, Drawing, Frame, FrameModel};
use vstd::prelude::*;
use vstd::string::*;

verus! {

/// The source panel.
pub struct SrcCode {
    frame: Frame,
}

impl View for SrcCode {
    type V = FrameModel;

    closed spec fn view(&self) -> FrameModel {
        self.frame@
    }
}

impl SrcCode {
    /// The panel at `(x, y)` of `w` columns and `h` rows.
    pub fn new(x: u16, y: u16, w: u16, h: u16) -> (panel: SrcCode)
        ensures
            panel@ == (FrameModel {
                title: "SrcCode"@,
                x: x as nat,
                y: y as nat,
                width: w as nat,
                height: h as nat,
                scroll: 0,
                content_len: 0,
            }),
    {
        SrcCode { frame: Frame::new(String::from_str("SrcCode"), x, y, w, h) }
    }

    /// The frame of the panel, to move or resize it.
    pub fn get_frame(&mut self) -> (frame: &mut Frame)
        ensures
            frame@ == old(self)@,
            final(self)@ == final(frame)@,
    {
        &mut self.frame
    }

    /// Draws the panel around one empty line.
    pub fn print(&mut self) -> (drawing: Drawing)
        ensures
            final(self)@ == old(self)@.with_content(1),
            drawing@ == final(self)@.drawing(seq![Seq::<char>::empty()]),
    {
        let mut cont: Vec<String> = Vec::new();
        cont.push(String::new());
        assert(lines(cont@) =~= seq![Seq::<char>::empty()]);
        self.frame.print(&cont)
    }

    /// Scrolling does nothing to this panel.
    pub fn scroll_down(&mut self)
        ensures
            final(self)@ == old(self)@,
    {
    }

    /// Scrolling does nothing to this panel.
    pub fn scroll_up(&mut self)
        ensures
            final(self)@ == old(self)@,
    {
    }
}

} // verus!
