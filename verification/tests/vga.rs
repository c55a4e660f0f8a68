use earlyboot::arch::x86::ports::PortOp;
use earlyboot::arch::x86::vga::{CrtcOp, VgaColor, VgaCursor, VgaNesting, VgaWriter};

fn writer(nesting: &mut VgaNesting) -> VgaWriter {
    VgaWriter::new(nesting, [0u16; 2000]).unwrap()
}

fn cursor_at(pos: u16) -> Vec<CrtcOp> {
    vec![
        CrtcOp::Write { index: 0x0F, value: (pos & 0xFF) as u8 },
        CrtcOp::Write { index: 0x0E, value: (pos >> 8) as u8 },
    ]
}

#[test]
fn a_second_writer_is_refused_while_the_first_is_live() {
    let mut nesting = VgaNesting::new();
    assert!(!nesting.is_live());
    let first = VgaWriter::new(&mut nesting, [0u16; 2000]);
    assert!(first.is_some());
    assert!(nesting.is_live());
    assert!(VgaWriter::new(&mut nesting, [0u16; 2000]).is_none());
    assert!(nesting.is_live());
    first.unwrap().release(&mut nesting);
    assert!(!nesting.is_live());
    assert!(VgaWriter::new(&mut nesting, [0u16; 2000]).is_some());
}

#[test]
fn a_new_writer_starts_at_the_first_cell_of_what_the_screen_shows() {
    let mut nesting = VgaNesting::new();
    let mut cells = [0u16; 2000];
    cells[7] = 0x1F41;
    let w = VgaWriter::new(&mut nesting, cells).unwrap();
    assert_eq!(w.position(), 0);
    assert_eq!(w.cells(), &cells);
}

#[test]
fn clear_blanks_every_cell_on_the_background() {
    let mut nesting = VgaNesting::new();
    let mut w = VgaWriter::new(&mut nesting, [0x0741u16; 2000]).unwrap();
    w.putc(b'x', VgaColor::WHITE);
    w.clear(VgaColor::BLUE);
    assert_eq!(w.position(), 0);
    assert!(w.cells().iter().all(|&cell| cell == 0x1000));
    w.clear(VgaColor::WHITE);
    assert!(w.cells().iter().all(|&cell| cell == 0xF000));
    w.clear(VgaColor::BLACK);
    assert!(w.cells().iter().all(|&cell| cell == 0x0000));
}

#[test]
fn a_visible_character_goes_to_the_cell_at_the_position() {
    let mut nesting = VgaNesting::new();
    let mut w = writer(&mut nesting);
    w.clear(VgaColor::BLUE);
    let ops = w.putc(b'A', VgaColor::LIGHT_GREY);
    assert_eq!(w.cells()[0], 0x1741);
    assert_eq!(w.cells()[1], 0x1000);
    assert_eq!(w.position(), 1);
    assert_eq!(ops, cursor_at(1));
    w.putc(b'~', VgaColor::WHITE);
    assert_eq!(w.cells()[1], 0x1F7E);
    w.putc(b' ', VgaColor::RED);
    assert_eq!(w.cells()[2], 0x1420);
    assert_eq!(w.position(), 3);
}

#[test]
fn characters_outside_the_printable_range_are_dropped() {
    let mut nesting = VgaNesting::new();
    let mut w = writer(&mut nesting);
    for c in [0u8, 1, 7, 11, 13, 27, 31, 127, 128, 200, 255] {
        let ops = w.putc(c, VgaColor::WHITE);
        assert_eq!(w.position(), 0);
        assert_eq!(ops, cursor_at(0));
    }
    assert_eq!(w.cells(), &[0u16; 2000]);
}

#[test]
fn a_dropped_character_does_not_scroll_a_full_screen() {
    let mut nesting = VgaNesting::new();
    let mut w = writer(&mut nesting);
    for _ in 0..2000 {
        w.putc(b'a', VgaColor::WHITE);
    }
    let before = *w.cells();
    w.putc(7, VgaColor::WHITE);
    w.putc(200, VgaColor::WHITE);
    assert_eq!(w.position(), 2000);
    assert_eq!(w.cells(), &before);
}

#[test]
fn a_newline_moves_to_the_start_of_the_next_row() {
    let mut nesting = VgaNesting::new();
    let mut w = writer(&mut nesting);
    w.putc(b'a', VgaColor::WHITE);
    let ops = w.putc(b'\n', VgaColor::WHITE);
    assert_eq!(w.position(), 80);
    assert_eq!(ops, cursor_at(80));
    w.putc(b'\n', VgaColor::WHITE);
    assert_eq!(w.position(), 160);
    assert_eq!(w.cells()[0], 0x0F61);
    assert!(w.cells()[1..].iter().all(|&cell| cell == 0));
}

#[test]
fn a_newline_on_the_last_row_leaves_the_screen_full() {
    let mut nesting = VgaNesting::new();
    let mut w = writer(&mut nesting);
    for _ in 0..25 {
        w.putc(b'\n', VgaColor::WHITE);
    }
    assert_eq!(w.position(), 2000);
    let ops = w.putc(b'\n', VgaColor::WHITE);
    assert_eq!(w.position(), 2000);
    assert_eq!(ops, cursor_at(2000));
}

#[test]
fn a_tab_is_four_blanks() {
    let mut nesting = VgaNesting::new();
    let mut w = writer(&mut nesting);
    w.clear(VgaColor::GREEN);
    let ops = w.putc(b'\t', VgaColor::CYAN);
    assert_eq!(w.position(), 4);
    assert_eq!(w.cells()[..5], [0x2320, 0x2320, 0x2320, 0x2320, 0x2000]);
    let mut expected = Vec::new();
    for pos in [1, 2, 3, 4, 4] {
        expected.extend(cursor_at(pos));
    }
    assert_eq!(ops, expected);
}

#[test]
fn a_tab_at_the_end_of_the_screen_scrolls() {
    let mut nesting = VgaNesting::new();
    let mut w = writer(&mut nesting);
    for _ in 0..1998 {
        w.putc(b'a', VgaColor::WHITE);
    }
    let ops = w.putc(b'\t', VgaColor::WHITE);
    assert_eq!(w.position(), 1922);
    assert_eq!(w.cells()[1917], 0x0F61);
    assert_eq!(w.cells()[1918], 0x0F20);
    assert_eq!(w.cells()[1919], 0x0F20);
    assert_eq!(w.cells()[1920], 0x0F20);
    assert_eq!(w.cells()[1921], 0x0F20);
    assert_eq!(w.cells()[1922], 0x0F61);
    let mut expected = Vec::new();
    for pos in [1999, 2000, 1921, 1922, 1922] {
        expected.extend(cursor_at(pos));
    }
    assert_eq!(ops, expected);
}

#[test]
fn a_backspace_blanks_the_cell_at_the_position_and_stays() {
    let mut nesting = VgaNesting::new();
    let mut w = VgaWriter::new(&mut nesting, [0x4E58u16; 2000]).unwrap();
    w.putc(b'a', VgaColor::WHITE);
    let ops = w.putc(8, VgaColor::GREEN);
    assert_eq!(w.position(), 1);
    assert_eq!(w.cells()[0], 0x4F61);
    assert_eq!(w.cells()[1], 0x4220);
    assert_eq!(w.cells()[2], 0x4E58);
    assert_eq!(ops, cursor_at(1));
}

#[test]
fn writing_past_the_last_cell_scrolls_by_one_row() {
    let mut nesting = VgaNesting::new();
    let mut w = writer(&mut nesting);
    for i in 0..2000usize {
        w.putc(b'!' + (i % 90) as u8, VgaColor::WHITE);
    }
    assert_eq!(w.position(), 2000);
    let full = *w.cells();
    for _ in 0..5 {
        w.putc(b'z', VgaColor::RED);
    }
    assert_eq!(w.position(), 24 * 80 + 5);
    assert_eq!(w.cells()[..80], full[80..160]);
    assert_eq!(w.cells()[..1920], full[80..]);
    assert_eq!(w.cells()[1920..1925], [0x047A; 5]);
    assert_eq!(w.cells()[1925..], full[1925..]);
}

#[test]
fn the_last_row_is_not_blanked_by_a_scroll() {
    let mut nesting = VgaNesting::new();
    let mut w = writer(&mut nesting);
    for _ in 0..2000 {
        w.putc(b'q', VgaColor::WHITE);
    }
    w.putc(b'r', VgaColor::WHITE);
    assert_eq!(w.cells()[1920], 0x0F72);
    assert_eq!(w.cells()[1921], 0x0F71);
    assert_eq!(w.cells()[1999], 0x0F71);
}

#[test]
fn puts_writes_the_characters_and_moves_the_cursor_once() {
    let mut nesting = VgaNesting::new();
    let mut w = writer(&mut nesting);
    let ops = w.puts("Hi\nyou", VgaColor::LIGHT_GREEN);
    assert_eq!(w.position(), 83);
    assert_eq!(w.cells()[..3], [0x0A48, 0x0A69, 0]);
    assert_eq!(w.cells()[80..84], [0x0A79, 0x0A6F, 0x0A75, 0]);
    assert_eq!(ops, cursor_at(83));
}

#[test]
fn puts_drops_characters_outside_ascii() {
    let mut nesting = VgaNesting::new();
    let mut w = writer(&mut nesting);
    let ops = w.puts("a\u{e9}\u{4e2d}b\u{1F600}", VgaColor::WHITE);
    assert_eq!(w.position(), 2);
    assert_eq!(w.cells()[..3], [0x0F61, 0x0F62, 0]);
    assert_eq!(ops, cursor_at(2));
}

#[test]
fn puts_of_a_tab_moves_the_cursor_after_each_blank() {
    let mut nesting = VgaNesting::new();
    let mut w = writer(&mut nesting);
    let ops = w.puts("\tx", VgaColor::WHITE);
    assert_eq!(w.position(), 5);
    let mut expected = Vec::new();
    for pos in [1, 2, 3, 4, 5] {
        expected.extend(cursor_at(pos));
    }
    assert_eq!(ops, expected);
}

#[test]
fn puts_of_nothing_only_moves_the_cursor() {
    let mut nesting = VgaNesting::new();
    let mut w = writer(&mut nesting);
    w.putc(b'a', VgaColor::WHITE);
    assert_eq!(w.puts("", VgaColor::WHITE), cursor_at(1));
    assert_eq!(w.position(), 1);
}

#[test]
fn the_cursor_is_shown_once() {
    let mut nesting = VgaNesting::new();
    let mut w = writer(&mut nesting);
    w.puts("abc", VgaColor::WHITE);
    let ops = w.enable_cursor();
    let mut expected = vec![
        CrtcOp::Update { index: 0x0A, keep: 0xC0, set: 0 },
        CrtcOp::Update { index: 0x0B, keep: 0xE0, set: 0 },
    ];
    expected.extend(cursor_at(3));
    assert_eq!(ops, expected);
    assert_eq!(w.enable_cursor(), cursor_at(3));
    assert_eq!(w.disable_cursor(), vec![CrtcOp::Write { index: 0x0A, value: 0x20 }]);
    assert_eq!(w.disable_cursor(), vec![]);
}

#[test]
fn the_cursor_takes_a_height_up_to_fifteen() {
    let mut cursor = VgaCursor::new();
    assert!(!cursor.is_enabled());
    assert_eq!(cursor.enable(16), vec![]);
    assert!(!cursor.is_enabled());
    assert_eq!(
        cursor.enable(15),
        vec![
            CrtcOp::Update { index: 0x0A, keep: 0xC0, set: 0 },
            CrtcOp::Update { index: 0x0B, keep: 0xE0, set: 15 },
        ]
    );
    assert!(cursor.is_enabled());
    assert_eq!(cursor.enable(3), vec![]);
    assert_eq!(cursor.set_height(9), CrtcOp::Update { index: 0x0B, keep: 0xE0, set: 9 });
    assert_eq!(cursor.disable(), vec![CrtcOp::Write { index: 0x0A, value: 0x20 }]);
    assert!(!cursor.is_enabled());
    assert_eq!(cursor.disable(), vec![]);
}

#[test]
fn the_cursor_position_is_written_low_byte_first() {
    let cursor = VgaCursor::new();
    assert_eq!(
        cursor.update(0x1234),
        [CrtcOp::Write { index: 0x0F, value: 0x34 }, CrtcOp::Write { index: 0x0E, value: 0x12 }]
    );
    assert_eq!(cursor.update(2000).to_vec(), cursor_at(2000));
    assert_eq!(cursor.update(0xFFFF).to_vec(), cursor_at(0xFFFF));
}

#[test]
fn a_register_change_is_a_select_a_read_and_a_write() {
    let plain = CrtcOp::Write { index: 0x0F, value: 0x34 };
    assert_eq!(plain.select(), PortOp::WriteByte { port: 0x3D4, value: 0x0F });
    assert_eq!(plain.fetch(), None);
    assert_eq!(plain.store(0xFF), PortOp::WriteByte { port: 0x3D5, value: 0x34 });
    let update = CrtcOp::Update { index: 0x0B, keep: 0xE0, set: 0x0D };
    assert_eq!(update.select(), PortOp::WriteByte { port: 0x3D4, value: 0x0B });
    assert_eq!(update.fetch(), Some(PortOp::ReadByte { port: 0x3D5 }));
    assert_eq!(update.store(0xFF), PortOp::WriteByte { port: 0x3D5, value: 0xED });
    assert_eq!(update.store(0x5A), PortOp::WriteByte { port: 0x3D5, value: 0x4D });
}

#[test]
fn colours_have_their_numbers() {
    assert_eq!(VgaColor::BLACK.code(), 0);
    assert_eq!(VgaColor::BLUE.code(), 1);
    assert_eq!(VgaColor::GREEN.code(), 2);
    assert_eq!(VgaColor::CYAN.code(), 3);
    assert_eq!(VgaColor::RED.code(), 4);
    assert_eq!(VgaColor::MAGENTA.code(), 5);
    assert_eq!(VgaColor::BROWN.code(), 6);
    assert_eq!(VgaColor::LIGHT_GREY.code(), 7);
    assert_eq!(VgaColor::DARK_GREY.code(), 8);
    assert_eq!(VgaColor::LIGHT_BLUE.code(), 9);
    assert_eq!(VgaColor::LIGHT_GREEN.code(), 10);
    assert_eq!(VgaColor::LIGHT_CYAN.code(), 11);
    assert_eq!(VgaColor::LIGHT_RED.code(), 12);
    assert_eq!(VgaColor::LIGHT_MAGENTA.code(), 13);
    assert_eq!(VgaColor::LIGHT_BROWN.code(), 14);
    assert_eq!(VgaColor::WHITE.code(), 15);
}
