use vmdb::cell::Cell;
use vmdb::gdb::Registers;
use vmdb::register::Register;

fn shown(row: &Vec<Cell>) -> String {
    let mut s = String::new();
    for cell in row {
        match cell {
            Cell::Glyph(c) => s.push(*c),
            Cell::Wide(c) => s.push(*c),
            Cell::Tail => s.push('~'),
        }
    }
    s
}

#[test]
fn width_of_the_panel() {
    assert_eq!(Register::width(), 19);
}

#[test]
fn content_names_every_register_in_order() {
    let cont = Register::get_content(&Registers::new());
    let names = [
        "rax", "rbx", "rcx", "rdx", "rsi", "rdi", "rbp", "rsp", "r8", "r9", "r10", "r11", "r12",
        "r13", "r14", "r15", "rip", "rflags", "cr0", "cr2", "cr3", "cr4", "cr8", "efer",
    ];
    assert_eq!(cont.len(), 48);
    for (i, name) in names.iter().enumerate() {
        assert_eq!(cont[2 * i], *name);
        assert_eq!(cont[2 * i + 1], "0000000000000000");
    }
}

#[test]
fn content_shows_each_value_under_its_name() {
    let mut regs = Registers::new();
    regs.rax = 1;
    regs.rbx = 2;
    regs.rcx = 3;
    regs.rdx = 4;
    regs.rsi = 5;
    regs.rdi = 6;
    regs.rbp = 7;
    regs.rsp = 8;
    regs.r8 = 9;
    regs.r9 = 10;
    regs.r10 = 11;
    regs.r11 = 12;
    regs.r12 = 13;
    regs.r13 = 14;
    regs.r14 = 15;
    regs.r15 = 16;
    regs.rip = 0x401000;
    regs.rflags = 0x246;
    regs.cr0 = 0x80010033;
    regs.cr2 = 0xdead;
    regs.cr3 = 0x1000;
    regs.cr4 = 0x20;
    regs.cr8 = 0xf;
    regs.efer = u64::MAX;
    let cont = Register::get_content(&regs);
    let values: [u64; 24] = [
        1, 2, 3, 4, 5, 6, 7, 8, 9, 10, 11, 12, 13, 14, 15, 16, 0x401000, 0x246, 0x80010033,
        0xdead, 0x1000, 0x20, 0xf, u64::MAX,
    ];
    for (i, v) in values.iter().enumerate() {
        assert_eq!(cont[2 * i + 1], format!("{:016x}", v));
    }
    assert_eq!(cont[33], "0000000000401000");
}

#[test]
fn picture_of_the_registers_panel() {
    let mut regs = Registers::new();
    regs.rax = 0x1234;
    let mut r = Register::new(0, 0, 19, 6);
    let rows = r.print(&regs).rows;
    let text: Vec<String> = rows.iter().map(shown).collect();
    assert_eq!(
        text,
        vec![
            format!("┌─ Register {}┐", "─".repeat(6)),
            format!("│ rax{}│", " ".repeat(13)),
            "│ 000000000000123 │".to_string(),
            format!("│ rbx{}│", " ".repeat(13)),
            "│ 000000000000000 │".to_string(),
            format!("└{}┘", "─".repeat(17)),
        ]
    );
}

#[test]
fn a_wider_panel_shows_whole_values() {
    let mut regs = Registers::new();
    regs.rax = 0x1234;
    let mut r = Register::new(0, 0, 20, 4);
    let rows = r.print(&regs).rows;
    assert_eq!(shown(&rows[2]), "│ 0000000000001234 │");
}

#[test]
fn scrolling_the_panel() {
    let regs = Registers::new();
    let mut r = Register::new(0, 0, 19, 6);
    r.print(&regs);
    r.scroll_down();
    r.scroll_down();
    let rows = r.print(&regs).rows;
    assert_eq!(shown(&rows[1]), format!("│ rbx{}│", " ".repeat(13)));
    r.scroll_up();
    let rows = r.print(&regs).rows;
    assert_eq!(shown(&rows[2]), format!("│ rbx{}│", " ".repeat(13)));
    for _ in 0..100 {
        r.scroll_down();
    }
    let rows = r.print(&regs).rows;
    assert_eq!(shown(&rows[3]), format!("│ efer{}│", " ".repeat(12)));
    assert_eq!(shown(&rows[4]), "│ 000000000000000 │");
    for _ in 0..100 {
        r.scroll_up();
    }
    let rows = r.print(&regs).rows;
    assert_eq!(shown(&rows[1]), format!("│ rax{}│", " ".repeat(13)));
}

#[test]
fn frame_of_the_registers_can_be_resized() {
    let regs = Registers::new();
    let mut r = Register::new(0, 0, 19, 6);
    r.get_frame().set_height(40);
    assert_eq!(r.get_frame().get_height(), 40);
    assert_eq!(r.print(&regs).rows.len(), 40);
}
