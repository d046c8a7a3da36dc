//! The registers panel: every register of the machine, one name and one
//! value to a line.

use crate::frame::{lines, Drawing, Frame, FrameModel, ScrollStep};
use crate::gdb::Registers;
use crate::layout::REGISTER_WIDTH;
use crate::text::{hex16, hex_padded};
use vstd::prelude::*;
use vstd::string::*;

verus! {

/// The two lines that show one register: its name, then its value in sixteen
/// hexadecimal digits.
pub open spec fn entry(name: Seq<char>, value: u64) -> Seq<Seq<char>> {
    seq![name, hex_padded(value as nat, 16)]
}

/// The lines that show `regs`.
pub open spec fn register_lines(regs: Registers) -> Seq<Seq<char>> {
    entry("rax"@, regs.rax) + entry("rbx"@, regs.rbx) + entry("rcx"@, regs.rcx) + entry(
        "rdx"@,
        regs.rdx,
    ) + entry("rsi"@, regs.rsi) + entry("rdi"@, regs.rdi) + entry("rbp"@, regs.rbp) + entry(
        "rsp"@,
        regs.rsp,
    ) + entry("r8"@, regs.r8) + entry("r9"@, regs.r9) + entry("r10"@, regs.r10) + entry(
        "r11"@,
        regs.r11,
    ) + entry("r12"@, regs.r12) + entry("r13"@, regs.r13) + entry("r14"@, regs.r14) + entry(
        "r15"@,
        regs.r15,
    ) + entry("rip"@, regs.rip) + entry("rflags"@, regs.rflags) + entry("cr0"@, regs.cr0)
        + entry("cr2"@, regs.cr2) + entry("cr3"@, regs.cr3) + entry("cr4"@, regs.cr4) + entry(
        "cr8"@,
        regs.cr8,
    ) + entry("efer"@, regs.efer)
}

/// Appends the two lines of one register to `cont`.
fn push_entry(cont: &mut Vec<String>, name: &str, value: u64)
    ensures
        lines(final(cont)@) == lines(old(cont)@) + entry(name@, value),
{
    cont.push(String::from_str(name));
    cont.push(hex16(value));
}

/// The registers panel.
pub struct Register {
    frame: Frame,
}

impl View for Register {
    type V = FrameModel;

    closed spec fn view(&self) -> FrameModel {
        self.frame@
    }
}

impl Register {
    /// The panel at `(x, y)` of `width` columns and `height` rows.
    pub fn new(x: u16, y: u16, width: u16, height: u16) -> (panel: Register)
        ensures
            panel@ == (FrameModel {
                title: "Register"@,
                x: x as nat,
                y: y as nat,
                width: width as nat,
                height: height as nat,
                scroll: 0,
                content_len: 0,
            }),
    {
        Register { frame: Frame::new(String::from_str("Register"), x, y, width, height) }
    }

    /// Draws the panel with the values of `regs`.
    pub fn print(&mut self, regs: &Registers) -> (drawing: Drawing)
        ensures
            final(self)@ == old(self)@.with_content(register_lines(*regs).len()),
            drawing@ == final(self)@.drawing(register_lines(*regs)),
    {
        let cont = Register::get_content(regs);
        self.frame.print(&cont)
    }

    /// The frame of the panel, to move or resize it.
    pub fn get_frame(&mut self) -> (frame: &mut Frame)
        ensures
            frame@ == old(self)@,
            final(self)@ == final(frame)@,
    {
        &mut self.frame
    }

    /// The lines that show `regs`.
    pub fn get_content(regs: &Registers) -> (cont: Vec<String>)
        ensures
            lines(cont@) == register_lines(*regs),
    {
        let mut cont: Vec<String> = Vec::new();
        push_entry(&mut cont, "rax", regs.rax);
        push_entry(&mut cont, "rbx", regs.rbx);
        push_entry(&mut cont, "rcx", regs.rcx);
        push_entry(&mut cont, "rdx", regs.rdx);
        push_entry(&mut cont, "rsi", regs.rsi);
        push_entry(&mut cont, "rdi", regs.rdi);
        push_entry(&mut cont, "rbp", regs.rbp);
        push_entry(&mut cont, "rsp", regs.rsp);
        push_entry(&mut cont, "r8", regs.r8);
        push_entry(&mut cont, "r9", regs.r9);
        push_entry(&mut cont, "r10", regs.r10);
        push_entry(&mut cont, "r11", regs.r11);
        push_entry(&mut cont, "r12", regs.r12);
        push_entry(&mut cont, "r13", regs.r13);
        push_entry(&mut cont, "r14", regs.r14);
        push_entry(&mut cont, "r15", regs.r15);
        push_entry(&mut cont, "rip", regs.rip);
        push_entry(&mut cont, "rflags", regs.rflags);
        push_entry(&mut cont, "cr0", regs.cr0);
        push_entry(&mut cont, "cr2", regs.cr2);
        push_entry(&mut cont, "cr3", regs.cr3);
        push_entry(&mut cont, "cr4", regs.cr4);
        push_entry(&mut cont, "cr8", regs.cr8);
        push_entry(&mut cont, "efer", regs.efer);
        cont
    }

    /// The width of the panel.
    pub fn width() -> (w: u16)
        ensures
            w == REGISTER_WIDTH,
    {
        REGISTER_WIDTH
    }

    /// Scrolls the panel one line towards the end of the registers.
    pub fn scroll_down(&mut self)
        ensures
            final(self)@ == old(self)@.scrolled(ScrollStep::Down),
    {
        self.frame.inc_start();
    }

    /// Scrolls the panel one line towards the start of the registers.
    pub fn scroll_up(&mut self)
        ensures
            final(self)@ == old(self)@.scrolled(ScrollStep::Up),
    {
        self.frame.dec_start();
    }
}

} // verus!
