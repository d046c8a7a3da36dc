//! The debugger's side of the session: the machine state it reports, the
//! commands it takes, and the lines it prints.
//!
//! The debugger is driven over its text protocol. This module holds what is
//! written to it and what is read from it as values; starting the process and
//! moving the bytes is left to the program around the library.

use crate::frame::lines;
use crate::options::OptionsGdbInterface;
use crate::text::{
    after_blanks, after_word, decimal, find_char, has_prefix, is_blank, is_decimal_digit,
    lemma_blanks_end, lemma_decimal_reads_back, lemma_position_found, lemma_word_end, number_of,
    parse_number, position_of, push_decimal, skip_blanks, skip_word, starts_with, to_chars,
};
use vstd::prelude::*;
use vstd::string::*;

verus! {

/// The number of lines that the debugger prints when it starts, before it
/// takes the first command.
pub const BANNER_LINES: usize = 15;

/// The number of lines that the debugger prints in reply to the command that
/// attaches it to its target.
pub const ATTACH_REPLY_LINES: usize = 1;

/// The number of events that may wait for the session at one time. A reader
/// that finds the queue full waits; no event is dropped.
pub const QUEUE_CAPACITY: usize = 8;

/// A snapshot of the registers of the debugged machine.
#[derive(Clone, Copy, Debug, PartialEq, Eq, Structural)]
pub struct Registers {
    pub rax: u64,
    pub rbx: u64,
    pub rcx: u64,
    pub rdx: u64,
    pub rsi: u64,
    pub rdi: u64,
    pub rbp: u64,
    pub rsp: u64,
    pub r8: u64,
    pub r9: u64,
    pub r10: u64,
    pub r11: u64,
    pub r12: u64,
    pub r13: u64,
    pub r14: u64,
    pub r15: u64,
    pub rip: u64,
    pub rflags: u64,
    pub cr0: u64,
    pub cr2: u64,
    pub cr3: u64,
    pub cr4: u64,
    pub cr8: u64,
    pub efer: u64,
}

impl Registers {
    /// The snapshot in which every register is zero.
    pub open spec fn zeroed() -> Registers {
        Registers {
            rax: 0,
            rbx: 0,
            rcx: 0,
            rdx: 0,
            rsi: 0,
            rdi: 0,
            rbp: 0,
            rsp: 0,
            r8: 0,
            r9: 0,
            r10: 0,
            r11: 0,
            r12: 0,
            r13: 0,
            r14: 0,
            r15: 0,
            rip: 0,
            rflags: 0,
            cr0: 0,
            cr2: 0,
            cr3: 0,
            cr4: 0,
            cr8: 0,
            efer: 0,
        }
    }

    /// The snapshot before the debugger has reported anything: every register
    /// is zero.
    pub fn new() -> (regs: Registers)
        ensures
            regs == Registers::zeroed(),
    {
        Registers {
            rax: 0,
            rbx: 0,
            rcx: 0,
            rdx: 0,
            rsi: 0,
            rdi: 0,
            rbp: 0,
            rsp: 0,
            r8: 0,
            r9: 0,
            r10: 0,
            r11: 0,
            r12: 0,
            r13: 0,
            r14: 0,
            r15: 0,
            rip: 0,
            rflags: 0,
            cr0: 0,
            cr2: 0,
            cr3: 0,
            cr4: 0,
            cr8: 0,
            efer: 0,
        }
    }
}

/// A command to the debugger.
#[derive(Clone, Copy, Debug, PartialEq, Eq, Structural)]
pub enum Command {
    /// Let the debugged machine run.
    Continue,
    /// Halt the running machine.
    Stop,
    /// Reset the machine and let it run.
    Reset,
    /// Execute one instruction, entering calls.
    Stepi,
    /// Execute one instruction, stepping over calls.
    Nexti,
}

impl Command {
    /// The lines that the command writes to the debugger, in order.
    pub open spec fn script(self) -> Seq<Seq<char>> {
        match self {
            Command::Continue => seq!["continue"@],
            Command::Stop => Seq::empty(),
            Command::Reset => seq!["monitor system_reset"@, "continue"@],
            Command::Stepi => seq!["stepi"@],
            Command::Nexti => seq!["nexti"@],
        }
    }

    /// Whether the command is delivered by interrupting the debugger: while
    /// the machine runs the debugger reads no line.
    pub open spec fn interrupts(self) -> bool {
        self == Command::Stop
    }

    /// The lines to write to the debugger, in order, each without its line
    /// end.
    pub fn lines(&self) -> (out: Vec<String>)
        ensures
            lines(out@) == self.script(),
    {
        let mut out: Vec<String> = Vec::new();
        match self {
            Command::Continue => {
                out.push(String::from_str("continue"));
            },
            Command::Stop => {},
            Command::Reset => {
                out.push(String::from_str("monitor system_reset"));
                out.push(String::from_str("continue"));
            },
            Command::Stepi => {
                out.push(String::from_str("stepi"));
            },
            Command::Nexti => {
                out.push(String::from_str("nexti"));
            },
        }
        out
    }

    /// Whether to send the debugger the interrupt signal.
    pub fn needs_interrupt(&self) -> (b: bool)
        ensures
            b == self.interrupts(),
    {
        match self {
            Command::Stop => true,
            _ => false,
        }
    }
}

/// The line that attaches the debugger to the target at `host` and `port`.
pub open spec fn attach_text(host: Seq<char>, port: u16) -> Seq<char> {
    "target remote "@ + host + ":"@ + decimal(port as nat)
}

/// The line that attaches the debugger to the target at `host` and `port`,
/// without its line end.
pub fn attach_line(host: &str, port: u16) -> (line: String)
    ensures
        line@ == attach_text(host@, port),
{
    let mut line = String::from_str("target remote ");
    line.append(host);
    line.append(":");
    push_decimal(&mut line, port as u64);
    line
}

/// The bytes that end the session with the debugger: the end-of-input
/// character, then the answer `y` to its question whether to quit.
pub fn quit_bytes() -> (bytes: Vec<u8>)
    ensures
        bytes@ == seq![4u8, 121u8, 10u8],
{
    let mut bytes: Vec<u8> = Vec::new();
    bytes.push(4);
    bytes.push(121);
    bytes.push(10);
    bytes
}

/// The part of a line before its first comma; the whole line when it has
/// none.
pub open spec fn first_segment(line: Seq<char>) -> Seq<char> {
    line.take(position_of(line, ',', 0))
}

/// Where the word with index `n` of `s` starts, words being separated by
/// blanks; the length of `s` when it has no such word.
pub open spec fn word_start(s: Seq<char>, n: nat) -> int
    decreases n,
{
    if n == 0 {
        skip_blanks(s, 0)
    } else {
        skip_blanks(s, skip_word(s, word_start(s, (n - 1) as nat)))
    }
}

/// The word with index `n` of `s`; empty when it has no such word.
pub open spec fn word(s: Seq<char>, n: nat) -> Seq<char> {
    s.subrange(word_start(s, n), skip_word(s, word_start(s, n)))
}

/// The breakpoint that a line of the debugger reports as hit, if it reports
/// one: the line starts with `Breakpoint`, and the second word of its part
/// before the first comma is a number.
pub open spec fn breakpoint_hit(line: Seq<char>) -> Option<usize> {
    if starts_with(line, "Breakpoint"@) {
        number_of(word(first_segment(line), 1))
    } else {
        None
    }
}

/// What a line of the debugger means to the session: a breakpoint hit, or
/// nothing.
pub open spec fn meaning(line: Seq<char>) -> Option<OptionsGdbInterface> {
    match breakpoint_hit(line) {
        Some(bp) => Some(OptionsGdbInterface::HitBreakpoint(bp)),
        None => None,
    }
}

/// Reads one line of the debugger's output. Lines that report nothing the
/// session acts on are passed over in silence.
pub fn classify(line: &str) -> (event: Option<OptionsGdbInterface>)
    ensures
        event == meaning(line@),
{
    let chars = to_chars(line);
    let head = to_chars("Breakpoint");
    if !has_prefix(&chars, &head) {
        return None;
    }
    let end = find_char(&chars, ',', 0);
    let ghost segment = first_segment(chars@);
    let first = after_blanks(&chars, 0, end);
    let first_end = after_word(&chars, first, end);
    let second = after_blanks(&chars, first_end, end);
    let second_end = after_word(&chars, second, end);
    proof {
        assert(second == word_start(segment, 1)) by {
            reveal_with_fuel(word_start, 2);
        }
        assert(chars@.subrange(second as int, second_end as int) =~= word(segment, 1));
    }
    match parse_number(&chars, second, second_end) {
        Some(bp) => Some(OptionsGdbInterface::HitBreakpoint(bp)),
        None => None,
    }
}

/// A line that starts with `Breakpoint`, a space, a number in decimal and a
/// comma reports that the breakpoint with that number was hit, whatever
/// follows the comma.
pub proof fn lemma_hit_line(bp: usize, rest: Seq<char>)
    ensures
        breakpoint_hit("Breakpoint "@ + decimal(bp as nat) + ","@ + rest) == Some(bp),
        meaning("Breakpoint "@ + decimal(bp as nat) + ","@ + rest) == Some(
            OptionsGdbInterface::HitBreakpoint(bp),
        ),
{
    reveal_strlit("Breakpoint ");
    reveal_strlit("Breakpoint");
    reveal_strlit(",");
    let head = "Breakpoint "@;
    let digits = decimal(bp as nat);
    let line = head + digits + ","@ + rest;
    let comma = head.len() + digits.len();
    lemma_decimal_reads_back(bp as nat);
    assert(line.subrange(0, 10) =~= "Breakpoint"@);
    assert forall|i: int| 0 <= i < comma implies #[trigger] line[i] != ',' by {}
    lemma_position_found(line, ',', 0, comma as int);
    let segment = first_segment(line);
    lemma_blanks_end(segment, 0, 0);
    assert forall|i: int| 0 <= i < 10 implies !is_blank(#[trigger] segment[i]) by {}
    lemma_word_end(segment, 0, 10);
    assert forall|i: int| 10 <= i < 11 implies is_blank(#[trigger] segment[i]) by {}
    lemma_blanks_end(segment, 10, 11);
    assert forall|i: int| 11 <= i < segment.len() implies !is_blank(#[trigger] segment[i]) by {}
    lemma_word_end(segment, 11, segment.len() as int);
    assert(word_start(segment, 1) == 11) by {
        reveal_with_fuel(word_start, 2);
    }
    assert(word(segment, 1) =~= digits);
}

} // verus!
