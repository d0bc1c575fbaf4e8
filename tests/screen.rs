use phren_os::vga_buf::{
    Color, ColorCode, ScreenChar, Writer, BUF_HEIGHT, BUF_WIDTH, REPLACEMENT_BYTE,
};

fn writer() -> Writer {
    Writer::new(ColorCode::new(Color::Black, Color::Yellow))
}

fn row_text(w: &Writer, row: usize, len: usize) -> Vec<u8> {
    (0..len).map(|c| w.char_at(row, c).ascii_char).collect()
}

#[test]
fn color_code_packs_background_high() {
    assert_eq!(ColorCode::new(Color::Black, Color::Yellow).bits(), 0x0e);
    assert_eq!(ColorCode::new(Color::Blue, Color::White).bits(), 0x1f);
    assert_eq!(ColorCode::new(Color::White, Color::Black).bits(), 0xf0);
    assert_eq!(Color::Pink.value(), 13);
}

#[test]
fn new_writer_is_blank() {
    let w = writer();
    assert_eq!(w.col_position, 0);
    let blank = ScreenChar { ascii_char: b' ', color_code: ColorCode(0x0e) };
    for row in 0..BUF_HEIGHT {
        for col in 0..BUF_WIDTH {
            assert_eq!(w.char_at(row, col), blank);
        }
    }
}

#[test]
fn t_simple() {
    let mut w = writer();
    w.write_string("testing works\n");
    assert_eq!(row_text(&w, BUF_HEIGHT - 2, 13), b"testing works".to_vec());
    assert_eq!(w.col_position, 0);
}

#[test]
fn t_print_many() {
    let mut w = writer();
    for _ in 0..200 {
        w.write_string("test writing many\n");
    }
    for row in 0..BUF_HEIGHT - 1 {
        assert_eq!(row_text(&w, row, 17), b"test writing many".to_vec());
    }
    assert_eq!(w.char_at(BUF_HEIGHT - 1, 0).ascii_char, b' ');
}

#[test]
fn t_char_appear() {
    let mut w = writer();
    let s = "This is a basic line!";
    w.write_string(s);
    w.write_string("\n");
    for (i, c) in s.chars().enumerate() {
        let s_char = w.char_at(BUF_HEIGHT - 2, i);
        assert_eq!(char::from(s_char.ascii_char), c);
    }
}

#[test]
fn printable_ascii_shown_others_replaced() {
    let mut w = writer();
    w.write_string("a~\té");
    assert_eq!(w.char_at(BUF_HEIGHT - 1, 0).ascii_char, b'a');
    assert_eq!(w.char_at(BUF_HEIGHT - 1, 1).ascii_char, b'~');
    assert_eq!(w.char_at(BUF_HEIGHT - 1, 2).ascii_char, REPLACEMENT_BYTE);
    // 'é' is two bytes in UTF-8, each replaced
    assert_eq!(w.char_at(BUF_HEIGHT - 1, 3).ascii_char, REPLACEMENT_BYTE);
    assert_eq!(w.char_at(BUF_HEIGHT - 1, 4).ascii_char, REPLACEMENT_BYTE);
    assert_eq!(w.col_position, 5);
}

#[test]
fn full_row_wraps_onto_a_new_line() {
    let mut w = writer();
    let line: String = std::iter::repeat('x').take(BUF_WIDTH).collect();
    w.write_string(&line);
    assert_eq!(w.col_position, BUF_WIDTH);
    w.write_byte(b'y');
    assert_eq!(w.col_position, 1);
    assert_eq!(row_text(&w, BUF_HEIGHT - 2, BUF_WIDTH), vec![b'x'; BUF_WIDTH]);
    assert_eq!(w.char_at(BUF_HEIGHT - 1, 0).ascii_char, b'y');
    assert_eq!(w.char_at(BUF_HEIGHT - 1, 1).ascii_char, b' ');
}

#[test]
fn newline_scrolls_and_drops_top_row() {
    let mut w = writer();
    w.write_string("top\n");
    for _ in 0..BUF_HEIGHT - 2 {
        w.newline();
    }
    assert_eq!(row_text(&w, 0, 3), b"top".to_vec());
    w.newline();
    assert_eq!(row_text(&w, 0, 3), b"   ".to_vec());
}

#[test]
fn clear_row_blanks_one_row_only() {
    let mut w = writer();
    w.write_string("one\ntwo");
    w.clear_row(BUF_HEIGHT - 1);
    assert_eq!(row_text(&w, BUF_HEIGHT - 1, 3), b"   ".to_vec());
    assert_eq!(row_text(&w, BUF_HEIGHT - 2, 3), b"one".to_vec());
    assert_eq!(w.col_position, 3);
}
