use vga_console::{
    Buffer, CellMemory, CgaColor, EgaWriteError, EgaWriterInner, SimulatedMemory, VGAColor,
    VGAEntry, VGAEntryColor, Writer, WriterInner,
};

fn console(width: usize, height: usize) -> WriterInner<SimulatedMemory> {
    let memory = SimulatedMemory::new(width * height, 0);
    WriterInner::new(Buffer::new(memory, width, height).unwrap())
}

fn glyph(console: &WriterInner<SimulatedMemory>, row: usize, col: usize) -> VGAEntry {
    console.buffer().read(row, col).unwrap()
}

fn white(byte: u8) -> VGAEntry {
    VGAEntry { byte, color: VGAEntryColor(0x0f) }
}

#[test]
fn hello_world_on_a_fresh_screen() {
    let mut writer: Writer<SimulatedMemory> = Writer::new();
    assert_eq!(writer.initialize(SimulatedMemory::new(80 * 25, 0), 80, 25), Ok(()));
    assert!(writer.add_str("hello, world!"));
    let inner = writer.inner().unwrap();
    for (i, b) in b"hello, world!".iter().enumerate() {
        assert_eq!(glyph(inner, 0, i), white(*b));
    }
    assert_eq!(inner.buffer().memory().read(0), 0x0f68);
    assert_eq!(inner.cursor(), (0, 13));
    assert_eq!(glyph(inner, 0, 13), VGAEntry { byte: 0, color: VGAEntryColor(0) });
}

#[test]
fn written_cells_read_back() {
    let mut buffer = Buffer::new(SimulatedMemory::new(12, 0), 4, 3).unwrap();
    for row in 0..3 {
        for col in 0..4 {
            let entry = VGAEntry {
                byte: (row * 4 + col) as u8 + b'a',
                color: VGAEntryColor((row * 16 + col) as u8),
            };
            assert_eq!(buffer.write(row, col, entry), Ok(()));
            assert_eq!(buffer.read(row, col), Ok(entry));
        }
    }
    assert_eq!(buffer.read(1, 2), Ok(VGAEntry { byte: b'g', color: VGAEntryColor(0x12) }));
}

#[test]
fn positions_off_the_grid_are_refused() {
    let mut buffer = Buffer::new(SimulatedMemory::new(12, 7), 4, 3).unwrap();
    let entry = white(b'x');
    assert_eq!(buffer.write(3, 0, entry), Err(EgaWriteError::OutOfBoundsWrite));
    assert_eq!(buffer.write(0, 4, entry), Err(EgaWriteError::OutOfBoundsWrite));
    assert_eq!(buffer.read(0, 4), Err(EgaWriteError::OutOfBoundsWrite));
    for i in 0..12 {
        assert_eq!(buffer.memory().read(i), 7);
    }
}

#[test]
fn geometry_must_fit_the_memory() {
    assert!(Buffer::new(SimulatedMemory::new(11, 0), 4, 3).is_none());
    assert!(Buffer::new(SimulatedMemory::new(12, 0), 0, 3).is_none());
    assert!(Buffer::new(SimulatedMemory::new(12, 0), 4, 0).is_none());
    assert!(Buffer::new(SimulatedMemory::new(12, 0), usize::MAX, 2).is_none());
    assert_eq!(Buffer::new(SimulatedMemory::new(13, 0), 4, 3).unwrap().size(), (3, 4));
}

#[test]
fn a_full_line_wraps_without_a_blank_row() {
    let mut c = console(10, 4);
    c.add_str("0123456789");
    assert_eq!(c.cursor(), (1, 0));
    for col in 0..10 {
        assert_eq!(glyph(&c, 0, col), white(b'0' + col as u8));
        assert_eq!(glyph(&c, 1, col), VGAEntry { byte: 0, color: VGAEntryColor(0) });
    }
    c.add_str("x");
    assert_eq!(glyph(&c, 1, 0), white(b'x'));
}

#[test]
fn one_character_past_a_screenful_scrolls_once() {
    let mut c = console(4, 3);
    c.add_str("abcdefghijkl");
    assert_eq!(c.cursor(), (2, 0));
    let rows = ["efgh", "ijkl", "    "];
    for (row, text) in rows.iter().enumerate() {
        for (col, b) in text.bytes().enumerate() {
            assert_eq!(glyph(&c, row, col), white(b));
        }
    }
    c.add_str("m");
    assert_eq!(c.cursor(), (2, 1));
    assert_eq!(glyph(&c, 0, 0), white(b'e'));
    assert_eq!(glyph(&c, 2, 0), white(b'm'));
    assert_eq!(glyph(&c, 2, 1), white(b' '));
}

#[test]
fn scroll_fills_in_the_current_color() {
    let mut c = console(3, 2);
    c.set_color(VGAEntryColor(0x1e));
    c.add_str("abc\n");
    assert_eq!(c.cursor(), (1, 0));
    assert_eq!(glyph(&c, 0, 0), VGAEntry { byte: 0, color: VGAEntryColor(0) });
    for col in 0..3 {
        assert_eq!(glyph(&c, 1, col), VGAEntry { byte: b' ', color: VGAEntryColor(0x1e) });
    }
}

#[test]
fn line_feed_and_carriage_return() {
    let mut c = console(8, 3);
    c.add_str("ab");
    c.add_char('\r');
    assert_eq!(c.cursor(), (0, 0));
    c.add_str("X\n");
    assert_eq!(c.cursor(), (1, 0));
    assert_eq!(glyph(&c, 0, 0), white(b'X'));
    assert_eq!(glyph(&c, 0, 1), white(b'b'));
    c.add_str("cd\n");
    assert_eq!(c.cursor(), (2, 0));
    c.add_str("ef\n");
    assert_eq!(c.cursor(), (2, 0));
    assert_eq!(glyph(&c, 0, 0), white(b'c'));
    assert_eq!(glyph(&c, 1, 0), white(b'e'));
    assert_eq!(glyph(&c, 2, 0), white(b' '));
}

#[test]
fn permissive_policy_substitutes_non_ascii() {
    let mut c = console(8, 2);
    c.add_str("a\u{e9}b");
    assert_eq!(glyph(&c, 0, 0), white(b'a'));
    assert_eq!(glyph(&c, 0, 1), white(b'?'));
    assert_eq!(glyph(&c, 0, 2), white(b'b'));
    assert_eq!(c.cursor(), (0, 3));
}

#[test]
fn strict_policy_refuses_non_ascii() {
    let memory = SimulatedMemory::new(16, 0);
    let mut c = EgaWriterInner::new(Buffer::new(memory, 8, 2).unwrap());
    assert_eq!(c.write_char('\u{e9}'), Err(EgaWriteError::NonAsciiCharacter));
    assert_eq!(c.inner().cursor(), (0, 0));
    assert_eq!(c.write_str("ok"), Ok(()));
    assert_eq!(c.write_str("ab\u{2603}cd"), Err(EgaWriteError::NonAsciiCharacter));
    assert_eq!(c.inner().cursor(), (0, 4));
    assert_eq!(glyph(c.inner(), 0, 3), white(b'b'));
    assert_eq!(glyph(c.inner(), 0, 4), VGAEntry { byte: 0, color: VGAEntryColor(0) });
    c.set_color(CgaColor::new(VGAColor::Red, VGAColor::Blue));
    assert_eq!(c.write_byte_at(b'q', (1, 0)), Ok(()));
    assert_eq!(glyph(c.inner(), 1, 0), VGAEntry { byte: b'q', color: VGAEntryColor(0x14) });
    c.increment_cursor();
    assert_eq!(c.inner().cursor(), (0, 5));
}

#[test]
fn permissive_write_str_always_succeeds() {
    let mut c = console(8, 2);
    assert_eq!(c.write_str("a\u{2603}b"), Ok(()));
    assert_eq!(c.write_char('\u{e9}'), Ok(()));
    assert_eq!(glyph(&c, 0, 1), white(b'?'));
    assert_eq!(glyph(&c, 0, 3), white(b'?'));
    assert_eq!(c.cursor(), (0, 4));
}

#[test]
fn write_byte_at_keeps_the_cursor() {
    let mut c = console(8, 2);
    assert_eq!(c.write_byte_at(b'z', (1, 7)), Ok(()));
    assert_eq!(glyph(&c, 1, 7), white(b'z'));
    assert_eq!(c.cursor(), (0, 0));
    assert_eq!(c.write_byte_at(b'z', (2, 0)), Err(EgaWriteError::OutOfBoundsWrite));
    c.increment_cursor();
    assert_eq!(c.cursor(), (0, 1));
}

#[test]
fn overwriting_a_cell_replaces_byte_and_color_together() {
    let mut c = console(4, 2);
    c.add_str("ab");
    c.set_color(VGAEntryColor(0x4e));
    assert_eq!(c.write_byte_at(b'Z', (0, 0)), Ok(()));
    assert_eq!(glyph(&c, 0, 0), VGAEntry { byte: b'Z', color: VGAEntryColor(0x4e) });
    assert_eq!(glyph(&c, 0, 1), white(b'b'));
    assert_eq!(c.buffer().memory().read(0), 0x4e5a);
    assert_eq!(c.color(), VGAEntryColor(0x4e));
}
