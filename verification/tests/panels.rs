use vmdb::cell::Cell;
use vmdb::memory::Memory;
use vmdb::srccode::SrcCode;
use vmdb::Config;

fn shown(row: &Vec<Cell>) -> String {
    let mut s = String::new();
    for cell in row {
        match cell {
            Cell::Glyph(c) => s.push(*c),
            Cell::Wide(c) => s.push(*c),
            Cell::Tail => s.push('~'),
        }
    }
    s
}

#[test]
fn memory_panel_width() {
    assert_eq!(Memory::width(), 58);
}

#[test]
fn memory_panel_is_an_empty_frame() {
    let mut m = Memory::new(62, 0, 12, 4);
    let rows = m.print().rows;
    let text: Vec<String> = rows.iter().map(shown).collect();
    assert_eq!(
        text,
        vec![
            "┌─ Memory ─┐".to_string(),
            format!("│{}││", " ".repeat(9)),
            format!("│{}││", " ".repeat(9)),
            format!("└{}┘", "─".repeat(10)),
        ]
    );
    assert_eq!(m.get_frame().get_x(), 62);
}

#[test]
fn source_panel_is_a_frame_around_one_empty_line() {
    let mut s = SrcCode::new(63, 0, 13, 5);
    let rows = s.print().rows;
    let text: Vec<String> = rows.iter().map(shown).collect();
    assert_eq!(
        text,
        vec![
            "┌─ SrcCode ─┐".to_string(),
            format!("│{}││", " ".repeat(10)),
            format!("│{}││", " ".repeat(10)),
            format!("│{}││", " ".repeat(10)),
            format!("└{}┘", "─".repeat(11)),
        ]
    );
    s.scroll_down();
    s.scroll_up();
    assert_eq!(s.print().rows, rows);
    assert_eq!(s.get_frame().get_width(), 13);
}

#[test]
fn source_panel_without_width_draws_empty_rows() {
    let mut s = SrcCode::new(63, 0, 0, 5);
    let rows = s.print().rows;
    assert_eq!(rows.len(), 5);
    assert!(rows.iter().all(|r| r.is_empty()));
}

#[test]
fn config_holds_the_target() {
    let c = Config { host: "localhost".to_string(), port: 1234, kernel_elf: "k.elf".to_string() };
    assert_eq!(c.host, "localhost");
    assert_eq!(c.port, 1234);
    assert_eq!(c.kernel_elf, "k.elf");
}
