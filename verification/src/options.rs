//! The options panel: the control bar of the session.
//!
//! It shows a row of buttons, a search field and a line of hint text, and it
//! keeps track of whether the debugged machine is halted or running. A click
//! on a button yields the command to send to the debugger.

use crate::event::Event;
use crate::frame::{lines, Drawing, Frame, FrameModel};
use crate::gdb::Command;
use crate::layout::{MIN_COLUMN_WIDTH, OPTIONS_HEIGHT};
use crate::text::{decimal, hex16, hex_padded, push_decimal};
use std::collections::HashMap;
use vstd::prelude::*;
use vstd::string::*;

verus! {

/// Whether the debugged machine is halted or running.
#[derive(Clone, Copy, Debug, PartialEq, Eq, Structural)]
pub enum State {
    /// The machine is halted: every button is enabled.
    Stopping,
    /// The machine runs, and the session waits for the debugger to report
    /// that it halted: only the stop button is enabled.
    WaitingForGdb,
}

/// What the session takes from its queue.
#[derive(Clone, Copy, Debug, PartialEq, Eq, Structural)]
pub enum OptionsGdbInterface {
    /// An event of the terminal.
    Event(Event),
    /// The debugger reports that the breakpoint with this number was hit.
    HitBreakpoint(usize),
}

/// The width of a button, brackets included.
pub const BUTTON_WIDTH: u16 = 10;

/// The command of the button with index `button` while the panel is in
/// `state`; none where there is no such button, or it is disabled.
pub open spec fn command_for(state: State, button: int) -> Option<Command> {
    match state {
        State::Stopping => if button == 0 {
            Some(Command::Continue)
        } else if button == 1 {
            Some(Command::Reset)
        } else if button == 2 {
            Some(Command::Stepi)
        } else if button == 3 {
            Some(Command::Nexti)
        } else {
            None
        },
        State::WaitingForGdb => if button == 0 {
            Some(Command::Stop)
        } else {
            None
        },
    }
}

/// The state after `command` went out from `state`.
pub open spec fn state_after(state: State, command: Command) -> State {
    match command {
        Command::Continue => State::WaitingForGdb,
        Command::Reset => State::WaitingForGdb,
        Command::Stop => State::Stopping,
        Command::Stepi => state,
        Command::Nexti => state,
    }
}

/// The hint shown after `command` went out.
pub open spec fn hint_after(command: Command) -> Seq<char> {
    match command {
        Command::Continue => "Continuing"@,
        Command::Reset => "System reset"@,
        _ => Seq::empty(),
    }
}

/// The hint shown after the breakpoint `bp`, which guards `address`, was hit.
pub open spec fn hit_hint(bp: usize, address: u64) -> Seq<char> {
    "Bp "@ + decimal(bp as nat) + ", 0x"@ + hex_padded(address as nat, 16)
}

/// The row of buttons in `state`.
pub open spec fn button_row(state: State) -> Seq<char> {
    match state {
        State::Stopping => "[Continue][  Reset ][  Step  ][  Next  ]"@,
        State::WaitingForGdb => "[  Stop  ][        ][        ][        ]"@,
    }
}

/// The search field in a panel of `width` columns.
pub open spec fn search_row(width: int) -> Seq<char> {
    "Search Memory: ["@ + Seq::new(
        if width > 21 {
            (width - 21) as nat
        } else {
            0
        },
        |i: int| ' ',
    ) + "]"@
}

/// What an options panel is, as mathematics.
pub struct OptionsModel {
    /// The frame of the panel.
    pub frame: FrameModel,
    /// Whether the machine is halted or running.
    pub state: State,
    /// The hint text.
    pub hint: Seq<char>,
}

impl OptionsModel {
    /// The index of the button at the screen position `(x, y)`: the buttons
    /// stand in the first row below the title, from the third column of the
    /// frame on. None for a position in another row or left of the buttons.
    pub open spec fn button_at(self, x: int, y: int) -> Option<int> {
        if y == self.frame.y + 1 && x >= self.frame.x + 2 {
            Some((x - self.frame.x - 2) / (BUTTON_WIDTH as int))
        } else {
            None
        }
    }

    /// The command that a click at `(x, y)` sends; none where the click hits
    /// no enabled button.
    pub open spec fn command_at(self, x: int, y: int) -> Option<Command> {
        match self.button_at(x, y) {
            Some(button) => command_for(self.state, button),
            None => None,
        }
    }

    /// The panel after a click at `(x, y)`. A click that sends no command
    /// changes nothing.
    pub open spec fn clicked(self, x: int, y: int) -> OptionsModel {
        match self.command_at(x, y) {
            Some(command) => OptionsModel {
                state: state_after(self.state, command),
                hint: hint_after(command),
                ..self
            },
            None => self,
        }
    }

    /// The panel after the breakpoint `bp`, which guards `address`, was hit.
    pub open spec fn halted_at(self, bp: usize, address: u64) -> OptionsModel {
        OptionsModel { state: State::Stopping, hint: hit_hint(bp, address), ..self }
    }

    /// The lines that the panel shows.
    pub open spec fn content(self) -> Seq<Seq<char>> {
        seq![button_row(self.state), search_row(self.frame.width as int), self.hint]
    }
}

/// The control bar of the session.
pub struct Options {
    frame: Frame,
    state: State,
    hint: String,
}

impl View for Options {
    type V = OptionsModel;

    closed spec fn view(&self) -> OptionsModel {
        OptionsModel { frame: self.frame@, state: self.state, hint: self.hint@ }
    }
}

impl Options {
    /// The panel at `(x, y)` of `w` columns and `h` rows, with the machine
    /// halted and no hint.
    pub fn new(x: u16, y: u16, w: u16, h: u16) -> (panel: Options)
        ensures
            panel@ == (OptionsModel {
                frame: FrameModel {
                    title: "Options"@,
                    x: x as nat,
                    y: y as nat,
                    width: w as nat,
                    height: h as nat,
                    scroll: 0,
                    content_len: 0,
                },
                state: State::Stopping,
                hint: Seq::empty(),
            }),
    {
        Options {
            frame: Frame::new(String::from_str("Options"), x, y, w, h),
            state: State::Stopping,
            hint: String::new(),
        }
    }

    /// Handles a click at the screen position `(x, y)`: returns the command to
    /// send to the debugger, if the click hit an enabled button, and moves to
    /// the state and hint that go with it.
    pub fn click(&mut self, x: u16, y: u16) -> (command: Option<Command>)
        ensures
            command == old(self)@.command_at(x as int, y as int),
            final(self)@ == old(self)@.clicked(x as int, y as int),
    {
        let left = self.frame.get_x();
        let top = self.frame.get_y();
        if y as u32 != top as u32 + 1 || (x as u32) < left as u32 + 2 {
            return None;
        }
        let button: u32 = (x as u32 - left as u32 - 2) / (BUTTON_WIDTH as u32);
        let command = match self.state {
            State::Stopping => if button == 0 {
                Some(Command::Continue)
            } else if button == 1 {
                Some(Command::Reset)
            } else if button == 2 {
                Some(Command::Stepi)
            } else if button == 3 {
                Some(Command::Nexti)
            } else {
                None
            },
            State::WaitingForGdb => if button == 0 {
                Some(Command::Stop)
            } else {
                None
            },
        };
        match command {
            Some(Command::Continue) => {
                self.state = State::WaitingForGdb;
                self.hint = String::from_str("Continuing");
            },
            Some(Command::Reset) => {
                self.state = State::WaitingForGdb;
                self.hint = String::from_str("System reset");
            },
            Some(Command::Stop) => {
                self.state = State::Stopping;
                self.hint = String::new();
            },
            Some(Command::Stepi) => {
                self.hint = String::new();
            },
            Some(Command::Nexti) => {
                self.hint = String::new();
            },
            None => {},
        }
        command
    }

    /// Takes note that the breakpoint `bp` was hit: the machine is halted, and
    /// the hint names the breakpoint and the address that `bp_table` gives for
    /// it.
    pub fn hit_breakpoint(&mut self, bp: usize, bp_table: &HashMap<usize, u64>)
        requires
            bp_table@.contains_key(bp),
        ensures
            final(self)@ == old(self)@.halted_at(bp, bp_table@[bp]),
    {
        let address: u64 = *bp_table.get(&bp).unwrap();
        let mut hint = String::from_str("Bp ");
        push_decimal(&mut hint, bp as u64);
        hint.append(", 0x");
        hint.append(hex16(address).as_str());
        self.state = State::Stopping;
        self.hint = hint;
    }

    /// The height of the panel.
    pub fn height() -> (h: u16)
        ensures
            h == OPTIONS_HEIGHT,
    {
        OPTIONS_HEIGHT
    }

    /// The width that the panel needs to show all its buttons.
    pub fn min_width() -> (w: u16)
        ensures
            w == MIN_COLUMN_WIDTH,
    {
        MIN_COLUMN_WIDTH
    }

    /// The frame of the panel, to move or resize it.
    pub fn get_frame(&mut self) -> (frame: &mut Frame)
        ensures
            frame@ == old(self)@.frame,
            final(self)@ == (OptionsModel { frame: final(frame)@, ..old(self)@ }),
    {
        &mut self.frame
    }

    /// Whether the machine is halted or running.
    pub fn state(&self) -> (state: State)
        ensures
            state == self@.state,
    {
        self.state
    }

    /// The hint text.
    pub fn hint(&self) -> (hint: &String)
        ensures
            hint@ == self@.hint,
    {
        &self.hint
    }

    /// The lines that the panel shows: the buttons, the search field, the
    /// hint.
    pub fn content(&self) -> (cont: Vec<String>)
        ensures
            lines(cont@) == self@.content(),
    {
        let buttons = match self.state {
            State::Stopping => String::from_str("[Continue][  Reset ][  Step  ][  Next  ]"),
            State::WaitingForGdb => String::from_str("[  Stop  ][        ][        ][        ]"),
        };
        let width = self.frame.get_width();
        let blanks: u16 = if width > 21 {
            width - 21
        } else {
            0
        };
        let mut search = String::from_str("Search Memory: [");
        let mut i: u16 = 0;
        proof {
            reveal_strlit(" ");
        }
        while i < blanks
            invariant
                i <= blanks,
                " "@ == seq![' '],
                search@ == "Search Memory: ["@ + Seq::new(i as nat, |i: int| ' '),
            decreases blanks - i,
        {
            search.append(" ");
            i = i + 1;
        }
        search.append("]");
        let mut cont: Vec<String> = Vec::new();
        cont.push(buttons);
        cont.push(search);
        cont.push(self.hint.clone());
        cont
    }

    /// Draws the panel.
    pub fn print(&mut self) -> (drawing: Drawing)
        ensures
            final(self)@ == (OptionsModel { frame: old(self)@.frame.with_content(3), ..old(self)@ }),
            drawing@ == final(self)@.frame.drawing(old(self)@.content()),
    {
        let cont = self.content();
        assert(lines(cont@).len() == 3);
        self.frame.print(&cont)
    }

    /// Scrolling does nothing to this panel.
    pub fn scroll_down(&mut self)
        ensures
            final(self)@ == old(self)@,
    {
    }

    /// Scrolling does nothing to this panel.
    pub fn scroll_up(&mut self)
        ensures
            final(self)@ == old(self)@,
    {
    }
}

/// The state machine of the panel. From the halted state the first button
/// sends one command to continue and leaves the panel waiting. While it waits,
/// no button but the first sends anything, and the first sends the command to
/// stop and leaves the panel halted. A breakpoint hit leaves the panel halted
/// whatever its state was, with a hint made of the number of the breakpoint
/// and the address it guards.
pub proof fn lemma_state_machine(panel: OptionsModel, button: int, bp: usize, address: u64)
    ensures
        command_for(State::Stopping, 0) == Some(Command::Continue),
        state_after(State::Stopping, Command::Continue) == State::WaitingForGdb,
        command_for(State::WaitingForGdb, button) is Some ==> button == 0,
        command_for(State::WaitingForGdb, 0) == Some(Command::Stop),
        state_after(State::WaitingForGdb, Command::Stop) == State::Stopping,
        panel.halted_at(bp, address).state == State::Stopping,
        panel.halted_at(bp, address).hint == "Bp "@ + decimal(bp as nat) + ", 0x"@ + hex_padded(
            address as nat,
            16,
        ),
{
}

} // verus!
