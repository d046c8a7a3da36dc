use vmdb::cell::Cell;
use vmdb::disass::{Disassembly, LEAD_LINES};

fn shown(row: &Vec<Cell>) -> String {
    let mut s = String::new();
    for cell in row {
        match cell {
            Cell::Glyph(c) => s.push(*c),
            Cell::Wide(c) => s.push(*c),
            Cell::Tail => s.push('~'),
        }
    }
    s
}

/// A listing of `n` instructions, two bytes each, from 0x401000 on.
fn listing(n: usize) -> Vec<String> {
    (0..n).map(|i| format!("  {:x}:\tab cd  \tmov r{}", 0x401000 + 2 * i, i)).collect()
}

/// The instruction numbers in view, read off the rows between the borders.
fn in_view(rows: &Vec<Vec<Cell>>) -> Vec<String> {
    let mut out = Vec::new();
    for i in 1..rows.len() - 1 {
        let text = shown(&rows[i]);
        match text.find("mov r") {
            Some(at) => out.push(
                text[at + 5..].chars().take_while(|c| c.is_ascii_digit()).collect::<String>(),
            ),
            None => out.push(String::new()),
        }
    }
    out
}

fn numbers(from: usize, to: usize) -> Vec<String> {
    (from..to).map(|i| i.to_string()).collect()
}

#[test]
fn fixed_sizes_of_the_panel() {
    assert_eq!(Disassembly::max_width(), 76);
    assert_eq!(LEAD_LINES, 5);
}

#[test]
fn new_panel_knows_no_breakpoint() {
    let d = Disassembly::new(listing(4), 19, 0, 44, 10);
    assert!(d.get_breakpoints().is_empty());
}

#[test]
fn recorded_breakpoints_are_kept() {
    let mut d = Disassembly::new(listing(4), 19, 0, 44, 10);
    d.record_breakpoint(3, 0x4010a0);
    d.record_breakpoint(1, 0x401000);
    assert_eq!(d.get_breakpoints().len(), 2);
    assert_eq!(d.get_breakpoints().get(&3), Some(&0x4010a0));
    assert_eq!(d.get_breakpoints().get(&1), Some(&0x401000));
    d.record_breakpoint(3, 0x4010b0);
    assert_eq!(d.get_breakpoints().len(), 2);
    assert_eq!(d.get_breakpoints().get(&3), Some(&0x4010b0));
}

#[test]
fn locate_finds_the_line_of_the_instruction_pointer() {
    let mut d = Disassembly::new(listing(40), 19, 0, 60, 12);
    d.set_rip(0x401000);
    assert_eq!(d.locate(), Some(0));
    d.set_rip(0x401002);
    assert_eq!(d.locate(), Some(1));
    d.set_rip(0x401000 + 2 * 39);
    assert_eq!(d.locate(), Some(39));
}

#[test]
fn locate_gives_none_for_an_address_outside_the_listing() {
    let mut d = Disassembly::new(listing(40), 19, 0, 60, 12);
    d.set_rip(0x401001);
    assert_eq!(d.locate(), None);
    d.set_rip(0x500000);
    assert_eq!(d.locate(), None);
    let mut empty = Disassembly::new(Vec::new(), 19, 0, 60, 12);
    empty.set_rip(0);
    assert_eq!(empty.locate(), None);
}

#[test]
fn label_is_matched_by_its_end() {
    let lines = vec![
        "Disassembly of section .text:".to_string(),
        "".to_string(),
        "0000000000401000 <_start>:".to_string(),
        "  401000:\tab cd  \tmov a".to_string(),
        "0000000000401002:\tab cd  \tmov b".to_string(),
        "  401004 no colon here".to_string(),
        "  11401004:\tab".to_string(),
        "  401006:\t401008: x".to_string(),
    ];
    let mut d = Disassembly::new(lines, 0, 0, 60, 12);
    d.set_rip(0x401000);
    assert_eq!(d.locate(), Some(3));
    // leading zeros before the address do not matter
    d.set_rip(0x401002);
    assert_eq!(d.locate(), Some(4));
    // a longer address that ends the same stands for it too
    d.set_rip(0x401004);
    assert_eq!(d.locate(), Some(6));
    // only the text before the first colon counts
    d.set_rip(0x401008);
    assert_eq!(d.locate(), None);
    d.set_rip(0x401006);
    assert_eq!(d.locate(), Some(7));
    // a line without a colon is all label
    d.set_rip(0xe);
    assert_eq!(d.locate(), Some(5));
}

#[test]
fn fresh_panel_looks_for_address_zero() {
    let d = Disassembly::new(listing(4), 0, 0, 60, 12);
    // 0x401000 ends in the digit 0
    assert_eq!(d.locate(), Some(0));
}

#[test]
fn view_starts_five_lines_above_the_current_instruction() {
    let mut d = Disassembly::new(listing(40), 19, 0, 60, 12);
    d.set_rip(0x401000 + 2 * 20);
    let rows = d.print().rows;
    assert_eq!(rows.len(), 12);
    assert_eq!(in_view(&rows), numbers(15, 25));
}

#[test]
fn view_near_the_top_starts_at_the_first_line() {
    let mut d = Disassembly::new(listing(40), 19, 0, 60, 12);
    d.set_rip(0x401000);
    assert_eq!(in_view(&d.print().rows), numbers(0, 10));
    d.set_rip(0x401000 + 2 * 3);
    assert_eq!(in_view(&d.print().rows), numbers(0, 10));
    d.set_rip(0x401000 + 2 * 5);
    assert_eq!(in_view(&d.print().rows), numbers(0, 10));
    d.set_rip(0x401000 + 2 * 6);
    assert_eq!(in_view(&d.print().rows), numbers(1, 11));
}

#[test]
fn view_near_the_end_shows_what_is_left() {
    let mut d = Disassembly::new(listing(40), 19, 0, 60, 12);
    d.set_rip(0x401000 + 2 * 38);
    let mut expected = numbers(33, 40);
    expected.extend(vec![String::new(); 3]);
    assert_eq!(in_view(&d.print().rows), expected);
}

#[test]
fn scrolling_moves_the_view() {
    let mut d = Disassembly::new(listing(40), 19, 0, 60, 12);
    d.set_rip(0x401000 + 2 * 20);
    d.scroll_down();
    d.scroll_down();
    assert_eq!(in_view(&d.print().rows), numbers(17, 27));
    d.scroll_up();
    d.scroll_up();
    d.scroll_up();
    assert_eq!(in_view(&d.print().rows), numbers(14, 24));
}

#[test]
fn scrolling_above_the_top_keeps_the_first_line_in_view() {
    let mut d = Disassembly::new(listing(40), 19, 0, 60, 12);
    d.set_rip(0x401000 + 2 * 6);
    for _ in 0..10 {
        d.scroll_up();
    }
    assert_eq!(in_view(&d.print().rows), numbers(0, 10));
    // the steps above the top are not forgotten
    for _ in 0..9 {
        d.scroll_down();
    }
    assert_eq!(in_view(&d.print().rows), numbers(0, 10));
    d.scroll_down();
    assert_eq!(in_view(&d.print().rows), numbers(1, 11));
}

#[test]
fn scrolling_below_the_end_empties_the_view() {
    let mut d = Disassembly::new(listing(8), 19, 0, 60, 6);
    d.set_rip(0x401000 + 2 * 7);
    for _ in 0..100 {
        d.scroll_down();
    }
    assert_eq!(in_view(&d.print().rows), vec![String::new(); 4]);
}

#[test]
fn halting_brings_the_view_back() {
    let mut d = Disassembly::new(listing(40), 19, 0, 60, 12);
    d.set_rip(0x401000 + 2 * 20);
    for _ in 0..7 {
        d.scroll_down();
    }
    assert_eq!(in_view(&d.print().rows), numbers(22, 32));
    d.set_rip(0x401000 + 2 * 10);
    assert_eq!(in_view(&d.print().rows), numbers(5, 15));
}

#[test]
fn picture_of_the_panel_around_its_listing() {
    let lines = vec![
        "401000: ab cd  mov a".to_string(),
        "401002: ab cd  mov b".to_string(),
    ];
    let mut d = Disassembly::new(lines, 19, 0, 30, 5);
    d.set_rip(0x401002);
    let rows = d.print().rows;
    let text: Vec<String> = rows.iter().map(shown).collect();
    assert_eq!(
        text,
        vec![
            format!("┌─ Disassembly {}┐", "─".repeat(14)),
            format!("│ 401000: ab cd  mov a{}││", " ".repeat(6)),
            format!("│ 401002: ab cd  mov b{}│", " ".repeat(7)),
            format!("│{}│", " ".repeat(28)),
            format!("└{}┘", "─".repeat(28)),
        ]
    );
}

#[test]
fn frames_too_low_for_content_show_none() {
    for h in 0..3u16 {
        let mut d = Disassembly::new(listing(8), 19, 0, 60, h);
        d.set_rip(0x401000);
        assert_eq!(d.print().rows.len(), h as usize);
    }
}

#[test]
fn frame_of_the_disassembly_can_be_resized() {
    let mut d = Disassembly::new(listing(40), 19, 0, 60, 12);
    d.set_rip(0x401000 + 2 * 20);
    d.get_frame().set_height(7);
    assert_eq!(in_view(&d.print().rows), numbers(15, 20));
}
