//! An interactive terminal console for a debugger that is driven over its
//! text protocol.
//!
//! The console shows the state of the debugged machine in five bordered
//! panels: registers, disassembly, options, source and memory. This library
//! is its logic: how a panel turns lines of text into rows of terminal cells,
//! where the panels stand on a terminal of a given size, what the lines of the
//! debugger mean, and what each event does to the panels. Reading the
//! terminal, writing to it and running the debugger are left to the program
//! around it.

use vstd::prelude::*;

pub mod cell;
pub mod disass;
pub mod event;
pub mod frame;
pub mod gdb;
pub mod layout;
pub mod memory;
pub mod options;
pub mod queue;
pub mod register;
pub mod session;
pub mod srccode;
pub mod text;

verus! {

/// Where the debugger finds its target, and the program that runs there.
pub struct Config {
    /// The host of the target.
    pub host: String,
    /// The port of the target.
    pub port: u16,
    /// The path of the executable image of the debugged program.
    pub kernel_elf: String,
}

} // verus!
