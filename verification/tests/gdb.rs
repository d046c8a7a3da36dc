use vmdb::gdb::{
    attach_line, classify, quit_bytes, Command, Registers, ATTACH_REPLY_LINES, BANNER_LINES,
    QUEUE_CAPACITY,
};
use vmdb::options::OptionsGdbInterface;

#[test]
fn breakpoint_line_yields_the_hit_event() {
    assert_eq!(
        classify("Breakpoint 3, main () at kernel.c:10\n"),
        Some(OptionsGdbInterface::HitBreakpoint(3))
    );
}

#[test]
fn breakpoint_number_is_the_second_word_before_the_first_comma() {
    assert_eq!(classify("Breakpoint 12, 0x401000 in f ()"), Some(OptionsGdbInterface::HitBreakpoint(12)));
    assert_eq!(classify("Breakpoint 1,"), Some(OptionsGdbInterface::HitBreakpoint(1)));
    assert_eq!(classify("Breakpoint 7"), Some(OptionsGdbInterface::HitBreakpoint(7)));
    assert_eq!(classify("Breakpoint 7\n"), Some(OptionsGdbInterface::HitBreakpoint(7)));
    assert_eq!(classify("Breakpoint   8  , x"), Some(OptionsGdbInterface::HitBreakpoint(8)));
    assert_eq!(classify("Breakpoint\t9, x"), Some(OptionsGdbInterface::HitBreakpoint(9)));
    assert_eq!(classify("Breakpoint 4 5, 6"), Some(OptionsGdbInterface::HitBreakpoint(4)));
    assert_eq!(classify("Breakpoints 2, x"), Some(OptionsGdbInterface::HitBreakpoint(2)));
    assert_eq!(classify("Breakpoint 0, x"), Some(OptionsGdbInterface::HitBreakpoint(0)));
    assert_eq!(classify("Breakpoint +5, x"), Some(OptionsGdbInterface::HitBreakpoint(5)));
    assert_eq!(
        classify("Breakpoint 1 at 0x401000: file kernel.c, line 3."),
        Some(OptionsGdbInterface::HitBreakpoint(1))
    );
}

#[test]
fn other_lines_are_passed_over() {
    assert_eq!(classify(""), None);
    assert_eq!(classify("\n"), None);
    assert_eq!(classify("Continuing."), None);
    assert_eq!(classify("(gdb) "), None);
    assert_eq!(classify("breakpoint 3, main ()"), None);
    assert_eq!(classify(" Breakpoint 3, main ()"), None);
    assert_eq!(classify("Temporary breakpoint 1, main ()"), None);
    assert_eq!(classify("Breakpoin"), None);
}

#[test]
fn breakpoint_lines_without_a_number_are_passed_over() {
    assert_eq!(classify("Breakpoint"), None);
    assert_eq!(classify("Breakpoint "), None);
    assert_eq!(classify("Breakpoint,3"), None);
    assert_eq!(classify("Breakpoint , 3"), None);
    assert_eq!(classify("Breakpoint x, 3"), None);
    assert_eq!(classify("Breakpoint 3x, main"), None);
    assert_eq!(classify("Breakpoint -3, main"), None);
    assert_eq!(classify("Breakpoint3, main"), None);
    assert_eq!(classify("Breakpoint 99999999999999999999999999, main"), None);
}

#[test]
fn command_lines() {
    assert_eq!(Command::Continue.lines(), vec!["continue".to_string()]);
    assert_eq!(Command::Stop.lines(), Vec::<String>::new());
    assert_eq!(
        Command::Reset.lines(),
        vec!["monitor system_reset".to_string(), "continue".to_string()]
    );
    assert_eq!(Command::Stepi.lines(), vec!["stepi".to_string()]);
    assert_eq!(Command::Nexti.lines(), vec!["nexti".to_string()]);
}

#[test]
fn only_stop_interrupts() {
    assert!(Command::Stop.needs_interrupt());
    assert!(!Command::Continue.needs_interrupt());
    assert!(!Command::Reset.needs_interrupt());
    assert!(!Command::Stepi.needs_interrupt());
    assert!(!Command::Nexti.needs_interrupt());
}

#[test]
fn attach_line_names_host_and_port() {
    assert_eq!(attach_line("localhost", 1234), "target remote localhost:1234");
    assert_eq!(attach_line("10.0.0.2", 0), "target remote 10.0.0.2:0");
    assert_eq!(attach_line("", 65535), "target remote :65535");
}

#[test]
fn quit_bytes_end_input_and_confirm() {
    assert_eq!(quit_bytes(), vec![4u8, b'y', b'\n']);
}

#[test]
fn protocol_constants() {
    assert_eq!(BANNER_LINES, 15);
    assert_eq!(ATTACH_REPLY_LINES, 1);
    assert_eq!(QUEUE_CAPACITY, 8);
}

#[test]
fn fresh_registers_are_zero() {
    let r = Registers::new();
    let all = [
        r.rax, r.rbx, r.rcx, r.rdx, r.rsi, r.rdi, r.rbp, r.rsp, r.r8, r.r9, r.r10, r.r11, r.r12,
        r.r13, r.r14, r.r15, r.rip, r.rflags, r.cr0, r.cr2, r.cr3, r.cr4, r.cr8, r.efer,
    ];
    assert_eq!(all, [0u64; 24]);
}
