use kernel_core::vga::{reset_style, set_style, Color, Pixel, Style, Terminal, HEIGHT, WIDTH};

fn text_of_row(t: &Terminal, row: usize) -> String {
    (0..WIDTH).map(|c| t.get_pixel(row, c).ascii as char).collect::<String>().trim_end().to_string()
}

#[test]
fn style_packs_background_and_foreground() {
    assert_eq!(Style::new(Color::White, Color::Black), Style(0x0f));
    assert_eq!(Style::new(Color::Yellow, Color::Black), Style(0x0e));
    assert_eq!(Style::new(Color::Black, Color::LightRed), Style(0xc0));
    assert_eq!(Style::new(Color::Pink, Color::Blue), Style(0x1d));
}

#[test]
fn color_codes() {
    assert_eq!(Color::Black.as_u8(), 0);
    assert_eq!(Color::Brown.as_u8(), 6);
    assert_eq!(Color::White.as_u8(), 15);
}

#[test]
fn new_terminal_is_blank() {
    let t = Terminal::new();
    assert_eq!((t.row(), t.column()), (0, 0));
    assert_eq!(t.style(), Style(0x0f));
    assert_eq!(t.get_pixel(HEIGHT - 1, WIDTH - 1), Pixel { ascii: b' ', style: Style(0x0f) });
}

#[test]
fn write_puts_bytes_at_cursor() {
    let mut t = Terminal::new();
    t.write("hi");
    assert_eq!(t.get_pixel(0, 0), Pixel { ascii: b'h', style: Style(0x0f) });
    assert_eq!(t.get_pixel(0, 1), Pixel { ascii: b'i', style: Style(0x0f) });
    assert_eq!((t.row(), t.column()), (0, 2));
}

#[test]
fn newline_moves_to_next_row() {
    let mut t = Terminal::new();
    t.write("ab\ncd");
    assert_eq!(text_of_row(&t, 0), "ab");
    assert_eq!(text_of_row(&t, 1), "cd");
    assert_eq!((t.row(), t.column()), (1, 2));
}

#[test]
fn unprintable_bytes_become_replacement() {
    let mut t = Terminal::new();
    t.write("a\tb\u{e9}");
    assert_eq!(t.get_pixel(0, 1).ascii, 0xfe);
    assert_eq!(t.get_pixel(0, 2).ascii, b'b');
    // The two UTF-8 bytes of the accented letter each become one cell.
    assert_eq!(t.get_pixel(0, 3).ascii, 0xfe);
    assert_eq!(t.get_pixel(0, 4).ascii, 0xfe);
    assert_eq!(t.column(), 5);
}

#[test]
fn full_row_wraps() {
    let mut t = Terminal::new();
    let line = "x".repeat(WIDTH);
    t.write(&line);
    assert_eq!((t.row(), t.column()), (0, WIDTH));
    t.write("y");
    assert_eq!((t.row(), t.column()), (1, 1));
    assert_eq!(t.get_pixel(1, 0).ascii, b'y');
}

#[test]
fn bottom_row_scrolls_up() {
    let mut t = Terminal::new();
    for i in 0..HEIGHT {
        t.write(&format!("line{}\n", i));
    }
    // Twenty-five line feeds from the top: the grid scrolled once.
    assert_eq!(t.row(), HEIGHT - 1);
    assert_eq!(text_of_row(&t, 0), "line1");
    assert_eq!(text_of_row(&t, HEIGHT - 2), "line24");
    assert_eq!(text_of_row(&t, HEIGHT - 1), "");
}

#[test]
fn style_applies_to_later_writes_and_resets() {
    let mut t = Terminal::new();
    set_style(&mut t, Color::Yellow, Color::Black);
    t.write("!");
    reset_style(&mut t);
    t.write("?");
    assert_eq!(t.get_pixel(0, 0).style, Style(0x0e));
    assert_eq!(t.get_pixel(0, 1).style, Style(0x0f));
    assert_eq!(t.style(), Style(0x0f));
}
