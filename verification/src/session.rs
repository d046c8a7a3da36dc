//! The session: the five panels together, and what each event does to them.
//!
//! The program around the library owns the terminal and the debugger. It
//! hands the session one event at a time and performs the action that the
//! session answers with; between events it asks the session for the drawings
//! of the panels and puts them on the screen.

use crate::disass::{Disassembly, DisassemblyModel};
use crate::event::{Event, Key, MouseKind};
use crate::frame::{lines, Drawing, DrawingModel, FrameModel, ScrollStep};
use crate::gdb::{Command, Registers};
use crate::layout::{arrangement, Layout, Rect};
use crate::memory::Memory;
use crate::options::{Options, OptionsGdbInterface, OptionsModel, State};
use crate::queue::{EventQueue, QueueModel};
use crate::register::{register_lines, Register};
use crate::srccode::SrcCode;
use vstd::prelude::*;

verus! {

/// The key that, with the control key held, ends the session.
pub const QUIT_KEY: char = 'd';

/// The time between two drawings of the panels, in milliseconds. After each
/// drawing the program takes at most one event from its queue, without
/// waiting for one.
pub const TICK_MILLIS: u64 = 5;

/// What the program is to do after an event.
#[derive(Clone, Copy, Debug, PartialEq, Eq, Structural)]
pub enum Action {
    /// Nothing.
    Idle,
    /// Restore the terminal, end the debugger and leave.
    Quit,
    /// Send the command to the debugger.
    Send(Command),
}

/// The drawings of `drawings`, each as mathematics.
pub open spec fn views(drawings: Seq<Drawing>) -> Seq<DrawingModel> {
    Seq::new(drawings.len(), |i: int| drawings[i]@)
}

/// Whether `frame` stands at `place`.
pub open spec fn stands_at(frame: FrameModel, place: Rect) -> bool {
    &&& frame.x == place.x
    &&& frame.y == place.y
    &&& frame.width == place.width
    &&& frame.height == place.height
}

/// What a session is, as mathematics.
pub struct SessionModel {
    /// The frame of the registers panel.
    pub registers: FrameModel,
    /// The options panel.
    pub options: OptionsModel,
    /// The disassembly panel.
    pub disassembly: DisassemblyModel,
    /// The frame of the source panel.
    pub source: FrameModel,
    /// The frame of the memory panel.
    pub memory: FrameModel,
}

impl SessionModel {
    /// The session at its start, on a terminal of `width` columns and
    /// `height` rows, with `listing` to show.
    pub open spec fn initial(listing: Seq<Seq<char>>, width: u16, height: u16) -> SessionModel {
        let l = arrangement(width, height);
        SessionModel {
            registers: FrameModel {
                title: "Register"@,
                x: l.registers.x as nat,
                y: l.registers.y as nat,
                width: l.registers.width as nat,
                height: l.registers.height as nat,
                scroll: 0,
                content_len: 0,
            },
            options: OptionsModel {
                frame: FrameModel {
                    title: "Options"@,
                    x: l.options.x as nat,
                    y: l.options.y as nat,
                    width: l.options.width as nat,
                    height: l.options.height as nat,
                    scroll: 0,
                    content_len: 0,
                },
                state: State::Stopping,
                hint: Seq::empty(),
            },
            disassembly: DisassemblyModel {
                frame: FrameModel {
                    title: "Disassembly"@,
                    x: l.disassembly.x as nat,
                    y: l.disassembly.y as nat,
                    width: l.disassembly.width as nat,
                    height: l.disassembly.height as nat,
                    scroll: 0,
                    content_len: 0,
                },
                listing,
                rip: 0,
                scroll: 0,
                breakpoints: Map::empty(),
            },
            source: FrameModel {
                title: "SrcCode"@,
                x: l.source.x as nat,
                y: l.source.y as nat,
                width: l.source.width as nat,
                height: l.source.height as nat,
                scroll: 0,
                content_len: 0,
            },
            memory: FrameModel {
                title: "Memory"@,
                x: l.memory.x as nat,
                y: l.memory.y as nat,
                width: l.memory.width as nat,
                height: l.memory.height as nat,
                scroll: 0,
                content_len: 0,
            },
        }
    }

    /// Whether every panel stands where the layout of a terminal of `width`
    /// columns and `height` rows puts it.
    pub open spec fn laid_out(self, width: u16, height: u16) -> bool {
        let l = arrangement(width, height);
        &&& stands_at(self.registers, l.registers)
        &&& stands_at(self.options.frame, l.options)
        &&& stands_at(self.disassembly.frame, l.disassembly)
        &&& stands_at(self.source, l.source)
        &&& stands_at(self.memory, l.memory)
    }

    /// The session after the terminal was resized to `width` columns and
    /// `height` rows: every panel stands where the layout puts it.
    pub open spec fn resized(self, width: u16, height: u16) -> SessionModel {
        let l = arrangement(width, height);
        SessionModel {
            registers: self.registers.placed(l.registers),
            options: OptionsModel { frame: self.options.frame.placed(l.options), ..self.options },
            disassembly: DisassemblyModel {
                frame: self.disassembly.frame.placed(l.disassembly),
                ..self.disassembly
            },
            source: self.source.placed(l.source),
            memory: self.memory.placed(l.memory),
        }
    }

    /// The command that goes out when the pointer does `kind` at the screen
    /// position `(column, row)`: that of the button under it, for a press of
    /// the left button inside the options panel and outside the registers
    /// panel.
    pub open spec fn pointed_command(self, kind: MouseKind, column: int, row: int) -> Option<
        Command,
    > {
        if !self.registers.contains(column, row) && self.options.frame.contains(column, row)
            && kind == MouseKind::LeftDown {
            self.options.command_at(column, row)
        } else {
            None
        }
    }

    /// The session after the pointer did `kind` at the screen position
    /// `(column, row)`. The panel under the pointer takes the event, the
    /// registers panel first, then the options panel, then the disassembly
    /// panel: the wheel scrolls the registers and the disassembly, the left
    /// button clicks on the options.
    pub open spec fn pointed(self, kind: MouseKind, column: int, row: int) -> SessionModel {
        if self.registers.contains(column, row) {
            match kind {
                MouseKind::ScrollDown => SessionModel {
                    registers: self.registers.scrolled(ScrollStep::Down),
                    ..self
                },
                MouseKind::ScrollUp => SessionModel {
                    registers: self.registers.scrolled(ScrollStep::Up),
                    ..self
                },
                _ => self,
            }
        } else if self.options.frame.contains(column, row) {
            match kind {
                MouseKind::LeftDown => SessionModel {
                    options: self.options.clicked(column, row),
                    ..self
                },
                _ => self,
            }
        } else if self.disassembly.frame.contains(column, row) {
            match kind {
                MouseKind::ScrollDown => SessionModel {
                    disassembly: self.disassembly.scrolled_down(),
                    ..self
                },
                MouseKind::ScrollUp => SessionModel {
                    disassembly: self.disassembly.scrolled_up(),
                    ..self
                },
                _ => self,
            }
        } else {
            self
        }
    }

    /// Whether the session can take `event`: a breakpoint that is reported as
    /// hit must be in the table of breakpoints.
    pub open spec fn handles(self, event: OptionsGdbInterface) -> bool {
        match event {
            OptionsGdbInterface::HitBreakpoint(bp) => self.disassembly.breakpoints.contains_key(
                bp,
            ),
            _ => true,
        }
    }

    /// The session after `event`, where `rip` is the instruction pointer that
    /// the debugger reports at that time.
    pub open spec fn after(self, event: OptionsGdbInterface, rip: u64) -> SessionModel {
        match event {
            OptionsGdbInterface::Event(Event::Mouse { kind, column, row }) => self.pointed(
                kind,
                column as int,
                row as int,
            ),
            OptionsGdbInterface::Event(Event::Resize { columns, rows }) => self.resized(
                columns,
                rows,
            ),
            OptionsGdbInterface::Event(_) => self,
            OptionsGdbInterface::HitBreakpoint(bp) => SessionModel {
                options: self.options.halted_at(bp, self.disassembly.breakpoints[bp]),
                disassembly: self.disassembly.halted_at(rip),
                ..self
            },
        }
    }

    /// What the program is to do after `event`.
    pub open spec fn action(self, event: OptionsGdbInterface) -> Action {
        match event {
            OptionsGdbInterface::Event(Event::Key { key: Key::Char(c), control }) => if control
                && c == QUIT_KEY {
                Action::Quit
            } else {
                Action::Idle
            },
            OptionsGdbInterface::Event(Event::Mouse { kind, column, row }) => match self.pointed_command(
                kind,
                column as int,
                row as int,
            ) {
                Some(command) => Action::Send(command),
                None => Action::Idle,
            },
            _ => Action::Idle,
        }
    }

    /// Whether the session can take its turn with `queue`: it can take the
    /// oldest event, if there is one.
    pub open spec fn takes_turn(self, queue: QueueModel) -> bool {
        queue.items.len() > 0 ==> self.handles(queue.items[0])
    }

    /// The session after its turn with `queue`: after the oldest event, if
    /// there is one.
    pub open spec fn turned(self, queue: QueueModel, rip: u64) -> SessionModel {
        if queue.items.len() > 0 {
            self.after(queue.items[0], rip)
        } else {
            self
        }
    }

    /// What the program is to do after the session's turn with `queue`.
    pub open spec fn turn_action(self, queue: QueueModel) -> Action {
        if queue.items.len() > 0 {
            self.action(queue.items[0])
        } else {
            Action::Idle
        }
    }

    /// The session after its panels were drawn.
    pub open spec fn printed(self, regs: Registers) -> SessionModel {
        SessionModel {
            registers: self.registers.with_content(register_lines(regs).len()),
            options: OptionsModel {
                frame: self.options.frame.with_content(self.options.content().len()),
                ..self.options
            },
            disassembly: DisassemblyModel {
                frame: self.disassembly.frame.with_content(self.disassembly.window().len()),
                ..self.disassembly
            },
            source: self.source.with_content(1),
            memory: self.memory.with_content(0),
        }
    }

    /// The drawings of the panels, in the order in which they go on the
    /// screen: registers, options, disassembly, source, memory.
    pub open spec fn drawings(self, regs: Registers) -> Seq<DrawingModel> {
        seq![
            self.registers.drawing(register_lines(regs)),
            self.options.frame.drawing(self.options.content()),
            self.disassembly.frame.drawing(self.disassembly.window()),
            self.source.drawing(seq![Seq::<char>::empty()]),
            self.memory.drawing(Seq::empty()),
        ]
    }
}

/// The five panels of the console.
pub struct Session {
    reg: Register,
    opt: Options,
    disas: Disassembly,
    scode: SrcCode,
    mem: Memory,
}

impl View for Session {
    type V = SessionModel;

    closed spec fn view(&self) -> SessionModel {
        SessionModel {
            registers: self.reg@,
            options: self.opt@,
            disassembly: self.disas@,
            source: self.scode@,
            memory: self.mem@,
        }
    }
}

impl Session {
    /// The session at its start, on a terminal of `width` columns and
    /// `height` rows, with `listing` to show in the disassembly panel.
    pub fn new(listing: Vec<String>, width: u16, height: u16) -> (session: Session)
        ensures
            session@ == SessionModel::initial(lines(listing@), width, height),
    {
        let l = Layout::compute(width, height);
        Session {
            reg: Register::new(l.registers.x, l.registers.y, l.registers.width, l.registers.height),
            opt: Options::new(l.options.x, l.options.y, l.options.width, l.options.height),
            disas: Disassembly::new(
                listing,
                l.disassembly.x,
                l.disassembly.y,
                l.disassembly.width,
                l.disassembly.height,
            ),
            scode: SrcCode::new(l.source.x, l.source.y, l.source.width, l.source.height),
            mem: Memory::new(l.memory.x, l.memory.y, l.memory.width, l.memory.height),
        }
    }

    /// Lays the panels out again on a terminal of `width` columns and
    /// `height` rows.
    pub fn resize(&mut self, width: u16, height: u16)
        ensures
            final(self)@ == old(self)@.resized(width, height),
    {
        let l = Layout::compute(width, height);
        self.reg.get_frame().place(&l.registers);
        self.opt.get_frame().place(&l.options);
        self.disas.get_frame().place(&l.disassembly);
        self.scode.get_frame().place(&l.source);
        self.mem.get_frame().place(&l.memory);
    }

    /// Takes note that the breakpoint `bp` guards `address`.
    pub fn record_breakpoint(&mut self, bp: usize, address: u64)
        ensures
            final(self)@ == (SessionModel {
                disassembly: DisassemblyModel {
                    breakpoints: old(self)@.disassembly.breakpoints.insert(bp, address),
                    ..old(self)@.disassembly
                },
                ..old(self)@
            }),
    {
        self.disas.record_breakpoint(bp, address);
    }

    /// Whether the session can take `event`.
    pub fn can_handle(&self, event: &OptionsGdbInterface) -> (b: bool)
        ensures
            b == self@.handles(*event),
    {
        match event {
            OptionsGdbInterface::HitBreakpoint(bp) => self.disas.get_breakpoints().contains_key(
                bp,
            ),
            _ => true,
        }
    }

    /// Whether the panels can be drawn: the instruction pointer is an address
    /// of the listing.
    pub fn can_print(&self) -> (b: bool)
        ensures
            b == self@.disassembly.current_line() is Some,
    {
        self.disas.locate().is_some()
    }

    /// Takes one event, where `regs` is what the debugger reports at that
    /// time, and returns what the program is to do.
    pub fn handle(&mut self, event: &OptionsGdbInterface, regs: &Registers) -> (action: Action)
        requires
            old(self)@.handles(*event),
        ensures
            final(self)@ == old(self)@.after(*event, regs.rip),
            action == old(self)@.action(*event),
    {
        match *event {
            OptionsGdbInterface::Event(Event::Key { key, control }) => {
                match key {
                    Key::Char(c) => if control && c == QUIT_KEY {
                        Action::Quit
                    } else {
                        Action::Idle
                    },
                    Key::Other => Action::Idle,
                }
            },
            OptionsGdbInterface::Event(Event::Mouse { kind, column, row }) => {
                self.point(kind, column, row)
            },
            OptionsGdbInterface::Event(Event::Resize { columns, rows }) => {
                self.resize(columns, rows);
                Action::Idle
            },
            OptionsGdbInterface::Event(_) => Action::Idle,
            OptionsGdbInterface::HitBreakpoint(bp) => {
                self.opt.hit_breakpoint(bp, self.disas.get_breakpoints());
                self.disas.set_rip(regs.rip);
                Action::Idle
            },
        }
    }

    /// Whether the session can take its turn with `queue`.
    pub fn can_tick(&self, queue: &EventQueue) -> (b: bool)
        ensures
            b == self@.takes_turn(queue@),
    {
        match queue.front() {
            Some(event) => self.can_handle(&event),
            None => true,
        }
    }

    /// One turn of the main loop: takes at most one event from the queue,
    /// the oldest, without waiting for one, and handles it. Returns what the
    /// program is to do.
    pub fn tick(&mut self, queue: &mut EventQueue, regs: &Registers) -> (action: Action)
        requires
            old(self)@.takes_turn(old(queue)@),
        ensures
            final(queue)@ == old(queue)@.asked(),
            final(self)@ == old(self)@.turned(old(queue)@, regs.rip),
            action == old(self)@.turn_action(old(queue)@),
    {
        match queue.try_recv() {
            Some(event) => self.handle(&event, regs),
            None => Action::Idle,
        }
    }

    /// Takes one event of the pointer.
    fn point(&mut self, kind: MouseKind, column: u16, row: u16) -> (action: Action)
        ensures
            final(self)@ == old(self)@.pointed(kind, column as int, row as int),
            action == (match old(self)@.pointed_command(kind, column as int, row as int) {
                Some(command) => Action::Send(command),
                None => Action::Idle,
            }),
    {
        if self.reg.get_frame().in_frame(column, row) {
            match kind {
                MouseKind::ScrollDown => {
                    self.reg.scroll_down();
                },
                MouseKind::ScrollUp => {
                    self.reg.scroll_up();
                },
                _ => {},
            }
            Action::Idle
        } else if self.opt.get_frame().in_frame(column, row) {
            match kind {
                MouseKind::LeftDown => match self.opt.click(column, row) {
                    Some(command) => Action::Send(command),
                    None => Action::Idle,
                },
                _ => Action::Idle,
            }
        } else if self.disas.get_frame().in_frame(column, row) {
            match kind {
                MouseKind::ScrollDown => {
                    self.disas.scroll_down();
                },
                MouseKind::ScrollUp => {
                    self.disas.scroll_up();
                },
                _ => {},
            }
            Action::Idle
        } else {
            Action::Idle
        }
    }

    /// Draws the five panels with the values of `regs`: returns their
    /// drawings in the order in which they go on the screen.
    ///
    /// The instruction pointer must be an address of the listing.
    pub fn print(&mut self, regs: &Registers) -> (drawings: Vec<Drawing>)
        requires
            old(self)@.disassembly.current_line() is Some,
        ensures
            final(self)@ == old(self)@.printed(*regs),
            views(drawings@) == final(self)@.drawings(*regs),
    {
        let mut drawings: Vec<Drawing> = Vec::new();
        drawings.push(self.reg.print(regs));
        drawings.push(self.opt.print());
        drawings.push(self.disas.print());
        drawings.push(self.scode.print());
        drawings.push(self.mem.print());
        drawings
    }
}

/// The panels always stand where the layout of the terminal puts them: they
/// do at the start, a resize moves them to the layout of the new size, and no
/// other event and no drawing moves them at all.
pub proof fn lemma_session_keeps_layout(
    session: SessionModel,
    listing: Seq<Seq<char>>,
    width: u16,
    height: u16,
    event: OptionsGdbInterface,
    regs: Registers,
)
    requires
        session.laid_out(width, height),
    ensures
        SessionModel::initial(listing, width, height).laid_out(width, height),
        session.printed(regs).laid_out(width, height),
        match event {
            OptionsGdbInterface::Event(Event::Resize { columns, rows }) => session.after(
                event,
                regs.rip,
            ).laid_out(columns, rows),
            _ => session.after(event, regs.rip).laid_out(width, height),
        },
{
}

} // verus!
