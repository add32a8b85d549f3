use mycelium_kernel::vga::{Buffer, Color, ColorSpec, BUF_HEIGHT, BUF_WIDTH};

fn green_on_black() -> ColorSpec {
    ColorSpec::new(Color::Green, Color::Black)
}

#[test]
fn color_spec_packs_nibbles() {
    assert_eq!(ColorSpec::new(Color::Green, Color::Black).0, 0x02);
    assert_eq!(ColorSpec::new(Color::White, Color::Blue).0, 0x1f);
    assert_eq!(ColorSpec::new(Color::Yellow, Color::Red).0, 0x4e);
    assert_eq!(ColorSpec::new(Color::Black, Color::White).0, 0xf0);
}

#[test]
fn new_buffer_is_blank() {
    let b = Buffer::new(green_on_black());
    assert_eq!(b.row(), 0);
    assert_eq!(b.col(), 0);
    for row in [0, 12, BUF_HEIGHT - 1] {
        for col in [0, 40, BUF_WIDTH - 1] {
            let c = b.cell_at(row, col);
            assert_eq!(c.ch, b' ');
            assert_eq!(c.color, green_on_black());
        }
    }
}

#[test]
fn write_char_advances_cursor() {
    let mut b = Buffer::new(green_on_black());
    b.write_char(b'h');
    b.write_char(b'i');
    assert_eq!(b.row(), 0);
    assert_eq!(b.col(), 2);
    assert_eq!(b.cell_at(0, 0).ch, b'h');
    assert_eq!(b.cell_at(0, 1).ch, b'i');
}

#[test]
fn set_color_applies_to_later_cells_only() {
    let mut b = Buffer::new(green_on_black());
    b.write_char(b'a');
    let red = ColorSpec::new(Color::Red, Color::Black);
    b.set_color(red);
    b.write_char(b'b');
    assert_eq!(b.cell_at(0, 0).color, green_on_black());
    assert_eq!(b.cell_at(0, 1).color, red);
}

#[test]
fn newline_moves_down_and_blanks() {
    let mut b = Buffer::new(green_on_black());
    b.write("one\ntwo");
    assert_eq!(b.row(), 1);
    assert_eq!(b.col(), 3);
    assert_eq!(b.cell_at(0, 0).ch, b'o');
    assert_eq!(b.cell_at(0, 2).ch, b'e');
    assert_eq!(b.cell_at(1, 0).ch, b't');
    assert_eq!(b.cell_at(1, 2).ch, b'o');
    assert_eq!(b.cell_at(0, 3).ch, b' ');
}

#[test]
fn long_line_wraps_to_next_row() {
    let mut b = Buffer::new(green_on_black());
    for _ in 0..BUF_WIDTH {
        b.write_char(b'x');
    }
    assert_eq!(b.row(), 0);
    assert_eq!(b.col(), BUF_WIDTH);
    b.write_char(b'y');
    assert_eq!(b.row(), 1);
    assert_eq!(b.col(), 1);
    assert_eq!(b.cell_at(0, BUF_WIDTH - 1).ch, b'x');
    assert_eq!(b.cell_at(1, 0).ch, b'y');
}

#[test]
fn scroll_at_bottom_shifts_rows_up() {
    let mut b = Buffer::new(green_on_black());
    // One line per row: "0", "1", ..., filling all rows.
    for i in 0..BUF_HEIGHT {
        b.write_char(b'0' + (i % 10) as u8);
        if i + 1 < BUF_HEIGHT {
            b.write_char(b'\n');
        }
    }
    assert_eq!(b.row(), BUF_HEIGHT - 1);
    // The next newline scrolls: row 0 ("0") falls off, every row moves up,
    // and the cursor stays on the last row, now blank.
    b.write_char(b'\n');
    assert_eq!(b.row(), BUF_HEIGHT - 1);
    assert_eq!(b.col(), 0);
    assert_eq!(b.cell_at(0, 0).ch, b'1');
    assert_eq!(b.cell_at(BUF_HEIGHT - 2, 0).ch, b'0' + ((BUF_HEIGHT - 1) % 10) as u8);
    assert_eq!(b.cell_at(BUF_HEIGHT - 1, 0).ch, b' ');
}

#[test]
fn wrap_on_last_row_scrolls() {
    let mut b = Buffer::new(green_on_black());
    // Park the cursor on the last row, then fill that row completely.
    for _ in 0..BUF_HEIGHT - 1 {
        b.write_char(b'\n');
    }
    b.write_char(b'm');
    assert_eq!(b.row(), BUF_HEIGHT - 1);
    for _ in 1..BUF_WIDTH {
        b.write_char(b'x');
    }
    assert_eq!(b.col(), BUF_WIDTH);
    // The next character wraps; with no row left below, the screen scrolls
    // and the character starts the freed bottom row.
    b.write_char(b'z');
    assert_eq!(b.row(), BUF_HEIGHT - 1);
    assert_eq!(b.col(), 1);
    assert_eq!(b.cell_at(BUF_HEIGHT - 1, 0).ch, b'z');
    assert_eq!(b.cell_at(BUF_HEIGHT - 2, 0).ch, b'm');
}

#[test]
fn write_whole_string() {
    let mut b = Buffer::new(green_on_black());
    b.write("hello, world");
    assert_eq!(b.col(), 12);
    let expected = b"hello, world";
    for (i, ch) in expected.iter().enumerate() {
        assert_eq!(b.cell_at(0, i).ch, *ch);
    }
}
