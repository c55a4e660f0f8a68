//! The VGA text screen: 80 columns by 25 rows of 16-bit cells, and the
//! hardware cursor.
//!
//! A cell holds a character in its low byte, the colour of the character in
//! the next four bits and the colour of its background in the highest four.
//! A [`VgaWriter`] works on its own copy of the cells: it is made from what
//! the screen shows, every call changes the copy, and the caller brings the
//! copy to the screen. What a call wants written to the cursor registers it
//! returns as a list of [`CrtcOp`], which the caller performs in order.
//!
//! At most one writer is live at a time. A [`VgaNesting`] counts the live
//! writers; a second writer is refused while the first is live, so that a
//! panic that strikes while the screen is written to cannot write across it.

use vstd::prelude::*;
use vstd::string::StringSliceAdditionalSpecFns;
use vstd::utf8::{encode_scalar, encode_utf8};
use crate::arch::x86::ports::{PortOp, PortRW, PortRead, PortWrite};

verus! {

/// Address of the first cell of the screen.
pub const VGA_BUFFER: usize = 0x000B_8000;

/// Number of columns of the screen.
pub const VGA_WIDTH: usize = 80;

/// Number of rows of the screen.
pub const VGA_HEIGHT: usize = 25;

/// Number of cells of the screen.
pub const VGA_BUFFER_LEN: usize = 2000;

/// Number of blanks that a tab stands for.
pub const TAB_LEN: usize = 4;

/// The port that selects a register of the display controller.
pub const CRTC_ADDR_PORT: u16 = 0x03D4;

/// The port through which the selected register is read and written.
pub const CRTC_DATA_PORT: u16 = 0x03D5;

/// The last scan line of the cursor that a writer switches on.
pub const CURSOR_HEIGHT: u8 = 0;

/// Register of the display controller: first scan line of the cursor, and
/// the bit that hides it.
pub const CRTC_CURSOR_START: u8 = 0x0A;

/// Register of the display controller: last scan line of the cursor.
pub const CRTC_CURSOR_END: u8 = 0x0B;

/// Register of the display controller: high byte of the cursor position.
pub const CRTC_CURSOR_HIGH: u8 = 0x0E;

/// Register of the display controller: low byte of the cursor position.
pub const CRTC_CURSOR_LOW: u8 = 0x0F;

/// What the cursor-start register holds while the cursor is hidden.
pub const CRTC_CURSOR_HIDDEN: u8 = 0x20;

/// One change of a register of the display controller.
#[derive(Clone, Copy, Debug, PartialEq, Eq)]
pub enum CrtcOp {
    /// Select the register `index` and write `value` to it.
    Write { index: u8, value: u8 },
    /// Select the register `index`, read it, and write back what was read
    /// with only the bits of `keep` kept and the bits of `set` set.
    Update { index: u8, keep: u8, set: u8 },
}

impl CrtcOp {
    /// The register that is changed.
    pub open spec fn index(self) -> u8 {
        match self {
            CrtcOp::Write { index, .. } => index,
            CrtcOp::Update { index, .. } => index,
        }
    }

    /// What is written to the register, where it held `current`.
    pub open spec fn stored(self, current: u8) -> u8 {
        match self {
            CrtcOp::Write { value, .. } => value,
            CrtcOp::Update { keep, set, .. } => (current & keep) | set,
        }
    }

    /// The first access of the change: the write that selects the register.
    pub fn select(&self) -> (op: PortOp)
        ensures
            op == (PortOp::WriteByte { port: CRTC_ADDR_PORT, value: self.index() }),
    {
        let index: u8 = match self {
            CrtcOp::Write { index, .. } => *index,
            CrtcOp::Update { index, .. } => *index,
        };
        PortRW::new(CRTC_ADDR_PORT).write_byte(index)
    }

    /// The second access of the change, where it has one: the read of the
    /// selected register. A plain write needs none.
    pub fn fetch(&self) -> (op: Option<PortOp>)
        ensures
            self is Update ==> op == Some(PortOp::ReadByte { port: CRTC_DATA_PORT }),
            self is Write ==> op.is_none(),
    {
        match self {
            CrtcOp::Write { .. } => None,
            CrtcOp::Update { .. } => Some(PortRW::new(CRTC_DATA_PORT).read_byte()),
        }
    }

    /// The last access of the change: the write to the selected register.
    /// `current` is what [`CrtcOp::fetch`] read; a plain write ignores it.
    pub fn store(&self, current: u8) -> (op: PortOp)
        ensures
            op == (PortOp::WriteByte { port: CRTC_DATA_PORT, value: self.stored(current) }),
    {
        let value: u8 = match self {
            CrtcOp::Write { value, .. } => *value,
            CrtcOp::Update { keep, set, .. } => (current & *keep) | *set,
        };
        PortRW::new(CRTC_DATA_PORT).write_byte(value)
    }
}

/// The two changes that move the hardware cursor to the cell `pos`: the low
/// byte of the position, then the high byte.
pub open spec fn cursor_update(pos: nat) -> Seq<CrtcOp> {
    seq![
        CrtcOp::Write { index: CRTC_CURSOR_LOW, value: (pos % 256) as u8 },
        CrtcOp::Write { index: CRTC_CURSOR_HIGH, value: (pos / 256 % 256) as u8 },
    ]
}

/// The two changes that show the cursor with `cursor_height` as its last scan
/// line.
pub open spec fn cursor_show(cursor_height: u8) -> Seq<CrtcOp> {
    seq![
        CrtcOp::Update { index: CRTC_CURSOR_START, keep: 0xC0, set: 0 },
        CrtcOp::Update { index: CRTC_CURSOR_END, keep: 0xE0, set: cursor_height },
    ]
}

/// The change that hides the cursor.
pub open spec fn cursor_hide() -> Seq<CrtcOp> {
    seq![CrtcOp::Write { index: CRTC_CURSOR_START, value: CRTC_CURSOR_HIDDEN }]
}

/// The hardware cursor.
#[derive(Clone, Copy, Debug)]
pub struct VgaCursor {
    enabled: bool,
}

impl VgaCursor {
    /// Whether the cursor has been switched on.
    pub closed spec fn enabled(&self) -> bool {
        self.enabled
    }

    /// The cursor, taken to be off.
    pub fn new() -> (cursor: Self)
        ensures
            !cursor.enabled(),
    {
        Self { enabled: false }
    }

    /// Whether the cursor has been switched on.
    pub fn is_enabled(&self) -> (enabled: bool)
        ensures
            enabled == self.enabled(),
    {
        self.enabled
    }

    /// Switches the cursor on, with `cursor_height` as its last scan line.
    /// Nothing happens where `cursor_height` is above 15 or the cursor is on
    /// already.
    pub fn enable(&mut self, cursor_height: u8) -> (ops: Vec<CrtcOp>)
        ensures
            cursor_height > 15 || old(self).enabled() ==> ops@ == Seq::<CrtcOp>::empty()
                && final(self).enabled() == old(self).enabled(),
            cursor_height <= 15 && !old(self).enabled() ==> ops@ == cursor_show(cursor_height)
                && final(self).enabled(),
    {
        let mut ops: Vec<CrtcOp> = Vec::new();
        if cursor_height > 15 {
            return ops;
        }
        if self.enabled {
            return ops;
        }
        ops.push(CrtcOp::Update { index: CRTC_CURSOR_START, keep: 0xC0, set: 0 });
        ops.push(self.set_height(cursor_height));
        self.enabled = true;
        assert(ops@ =~= cursor_show(cursor_height));
        ops
    }

    /// Switches the cursor off. Nothing happens where it is off already.
    pub fn disable(&mut self) -> (ops: Vec<CrtcOp>)
        ensures
            !final(self).enabled(),
            old(self).enabled() ==> ops@ == cursor_hide(),
            !old(self).enabled() ==> ops@ == Seq::<CrtcOp>::empty(),
    {
        let mut ops: Vec<CrtcOp> = Vec::new();
        if !self.enabled {
            return ops;
        }
        ops.push(CrtcOp::Write { index: CRTC_CURSOR_START, value: CRTC_CURSOR_HIDDEN });
        self.enabled = false;
        assert(ops@ =~= cursor_hide());
        ops
    }

    /// The change that makes `cursor_height` the last scan line of the
    /// cursor. The bits of `cursor_height` are set as they are: one above 15
    /// reaches into the bits that the register keeps.
    pub fn set_height(&self, cursor_height: u8) -> (op: CrtcOp)
        ensures
            op == (CrtcOp::Update { index: CRTC_CURSOR_END, keep: 0xE0, set: cursor_height }),
    {
        CrtcOp::Update { index: CRTC_CURSOR_END, keep: 0xE0, set: cursor_height }
    }

    /// The changes that move the cursor to the cell `pos`.
    pub fn update(&self, pos: u16) -> (ops: [CrtcOp; 2])
        ensures
            ops@ == cursor_update(pos as nat),
    {
        let ops = [
            CrtcOp::Write { index: CRTC_CURSOR_LOW, value: (pos % 256) as u8 },
            CrtcOp::Write { index: CRTC_CURSOR_HIGH, value: (pos / 256) as u8 },
        ];
        assert(ops@ =~= cursor_update(pos as nat));
        ops
    }
}

/// The sixteen colours of the text screen.
#[allow(non_camel_case_types)]
#[derive(Copy, Clone, Debug, PartialEq, Eq)]
pub enum VgaColor {
    BLACK,
    BLUE,
    GREEN,
    CYAN,
    RED,
    MAGENTA,
    BROWN,
    LIGHT_GREY,
    DARK_GREY,
    LIGHT_BLUE,
    LIGHT_GREEN,
    LIGHT_CYAN,
    LIGHT_RED,
    LIGHT_MAGENTA,
    LIGHT_BROWN,
    WHITE,
}

impl VgaColor {
    /// The number of the colour, 0 to 15.
    pub open spec fn number(self) -> u16 {
        match self {
            VgaColor::BLACK => 0,
            VgaColor::BLUE => 1,
            VgaColor::GREEN => 2,
            VgaColor::CYAN => 3,
            VgaColor::RED => 4,
            VgaColor::MAGENTA => 5,
            VgaColor::BROWN => 6,
            VgaColor::LIGHT_GREY => 7,
            VgaColor::DARK_GREY => 8,
            VgaColor::LIGHT_BLUE => 9,
            VgaColor::LIGHT_GREEN => 10,
            VgaColor::LIGHT_CYAN => 11,
            VgaColor::LIGHT_RED => 12,
            VgaColor::LIGHT_MAGENTA => 13,
            VgaColor::LIGHT_BROWN => 14,
            VgaColor::WHITE => 15,
        }
    }

    /// The number of the colour, 0 to 15.
    pub fn code(self) -> (code: u16)
        ensures
            code == self.number(),
            code <= 15,
    {
        match self {
            VgaColor::BLACK => 0,
            VgaColor::BLUE => 1,
            VgaColor::GREEN => 2,
            VgaColor::CYAN => 3,
            VgaColor::RED => 4,
            VgaColor::MAGENTA => 5,
            VgaColor::BROWN => 6,
            VgaColor::LIGHT_GREY => 7,
            VgaColor::DARK_GREY => 8,
            VgaColor::LIGHT_BLUE => 9,
            VgaColor::LIGHT_GREEN => 10,
            VgaColor::LIGHT_CYAN => 11,
            VgaColor::LIGHT_RED => 12,
            VgaColor::LIGHT_MAGENTA => 13,
            VgaColor::LIGHT_BROWN => 14,
            VgaColor::WHITE => 15,
        }
    }
}

/// The cell that holds no character on the background `background`.
pub open spec fn blank_cell(background: VgaColor) -> u16 {
    (background.number() * 4096) as u16
}

/// The cell that shows the character `c` in the colour `color` on the
/// background that the cell `under` has.
pub open spec fn glyph_cell(under: u16, c: u8, color: VgaColor) -> u16 {
    (under / 4096 * 4096 + color.number() * 256 + c) as u16
}

/// The character that a cell shows.
pub open spec fn cell_character(cell: u16) -> u8 {
    (cell % 256) as u8
}

/// The number of the colour in which a cell shows its character.
pub open spec fn cell_foreground(cell: u16) -> u16 {
    cell / 256 % 16
}

/// The number of the colour of the background of a cell.
pub open spec fn cell_background(cell: u16) -> u16 {
    cell / 4096
}

/// What a cell that was made for a character shows: that character in that
/// colour, on the background of the cell under it.
pub proof fn lemma_glyph_cell(under: u16, c: u8, color: VgaColor)
    ensures
        cell_character(glyph_cell(under, c, color)) == c,
        cell_foreground(glyph_cell(under, c, color)) == color.number(),
        cell_background(glyph_cell(under, c, color)) == cell_background(under),
        cell_character(blank_cell(color)) == 0,
        cell_foreground(blank_cell(color)) == 0,
        cell_background(blank_cell(color)) == color.number(),
{
}

/// Whether `c` is a character that the screen takes: not NUL, and below 127.
pub open spec fn printable(c: u8) -> bool {
    c != 0 && c < 127
}

/// Whether `c` is a character that is shown as it is: a blank or above, and
/// below 127.
pub open spec fn visible(c: u8) -> bool {
    32 <= c < 127
}

/// The cells of a screen after all rows have moved up by one. The first row
/// is lost; the last row stays as it was.
pub open spec fn scrolled(cells: Seq<u16>) -> Seq<u16> {
    Seq::new(
        cells.len(),
        |i: int|
            if i + VGA_WIDTH < cells.len() {
                cells[i + VGA_WIDTH]
            } else {
                cells[i]
            },
    )
}

/// What a writer holds of the screen: the cells, row by row, and the index of
/// the cell that the next character goes to.
pub struct Screen {
    pub pos: nat,
    pub cells: Seq<u16>,
}

impl Screen {
    /// Whether the screen has its 2000 cells and its position lies on it or
    /// just past its last cell.
    pub open spec fn wf(self) -> bool {
        self.cells.len() == VGA_BUFFER_LEN && self.pos <= VGA_BUFFER_LEN
    }

    /// The screen with every cell blank on `background` and the position at
    /// the first cell.
    pub open spec fn cleared(self, background: VgaColor) -> Screen {
        Screen { pos: 0, cells: Seq::new(self.cells.len(), |i: int| blank_cell(background)) }
    }

    /// The screen with room for a character: scrolled by one row where the
    /// position lay past the last cell, else as it was.
    pub open spec fn make_room(self) -> Screen {
        if self.pos >= VGA_BUFFER_LEN {
            Screen { pos: (self.pos - VGA_WIDTH) as nat, cells: scrolled(self.cells) }
        } else {
            self
        }
    }

    /// The screen after the visible character `c` was written.
    pub open spec fn put_visible(self, c: u8, color: VgaColor) -> Screen {
        let room = self.make_room();
        Screen {
            pos: room.pos + 1,
            cells: room.cells.update(
                room.pos as int,
                glyph_cell(room.cells[room.pos as int], c, color),
            ),
        }
    }

    /// The screen after `count` blanks were written.
    pub open spec fn put_blanks(self, color: VgaColor, count: nat) -> Screen
        decreases count,
    {
        if count == 0 {
            self
        } else {
            self.put_visible(32, color).put_blanks(color, (count - 1) as nat)
        }
    }

    /// The screen after a newline: the position at the start of the next row.
    pub open spec fn put_newline(self) -> Screen {
        let room = self.make_room();
        Screen { pos: (room.pos + VGA_WIDTH - room.pos % (VGA_WIDTH as nat)) as nat, ..room }
    }

    /// The screen after a backspace: a blank in the cell at the position,
    /// and the position where it was.
    pub open spec fn put_backspace(self, color: VgaColor) -> Screen {
        let room = self.make_room();
        Screen {
            cells: room.cells.update(
                room.pos as int,
                glyph_cell(room.cells[room.pos as int], 32, color),
            ),
            ..room
        }
    }

    /// The screen after the character `c` was written in the colour `color`.
    /// A visible character goes to the cell at the position. A tab is four
    /// blanks, a newline moves to the next row, a backspace blanks the cell
    /// at the position. Every other character is dropped.
    pub open spec fn put(self, c: u8, color: VgaColor) -> Screen {
        if visible(c) {
            self.put_visible(c, color)
        } else if c == 9 {
            self.put_blanks(color, TAB_LEN as nat)
        } else if c == 10 {
            self.put_newline()
        } else if c == 8 {
            self.put_backspace(color)
        } else {
            self
        }
    }

    /// The screen after the characters of `text` were written in order.
    pub open spec fn put_all(self, text: Seq<u8>, color: VgaColor) -> Screen
        decreases text.len(),
    {
        if text.len() == 0 {
            self
        } else {
            self.put(text[0], color).put_all(text.drop_first(), color)
        }
    }

    /// The cursor changes that `count` blanks of a tab ask for: one move of
    /// the cursor after each blank.
    pub open spec fn blank_updates(self, color: VgaColor, count: nat) -> Seq<CrtcOp>
        decreases count,
    {
        if count == 0 {
            Seq::empty()
        } else {
            let next = self.put_visible(32, color);
            cursor_update(next.pos) + next.blank_updates(color, (count - 1) as nat)
        }
    }

    /// The cursor changes that writing `c` asks for by itself: those of the
    /// blanks of a tab, and none for any other character.
    pub open spec fn put_updates(self, c: u8, color: VgaColor) -> Seq<CrtcOp> {
        if c == 9 {
            self.blank_updates(color, TAB_LEN as nat)
        } else {
            Seq::empty()
        }
    }

    /// The cursor changes that writing the characters of `text` asks for, in
    /// order.
    pub open spec fn put_all_updates(self, text: Seq<u8>, color: VgaColor) -> Seq<CrtcOp>
        decreases text.len(),
    {
        if text.len() == 0 {
            Seq::empty()
        } else {
            self.put_updates(text[0], color) + self.put(text[0], color).put_all_updates(
                text.drop_first(),
                color,
            )
        }
    }

    /// The screen after the character `c` of a string was written: as after
    /// its byte where it is an ASCII character, else as before.
    pub open spec fn put_char(self, c: char, color: VgaColor) -> Screen {
        if c as u32 <= 0x7F {
            self.put(c as u8, color)
        } else {
            self
        }
    }

    /// The screen after the characters of a string were written in order.
    pub open spec fn put_chars(self, chars: Seq<char>, color: VgaColor) -> Screen
        decreases chars.len(),
    {
        if chars.len() == 0 {
            self
        } else {
            self.put_char(chars[0], color).put_chars(chars.drop_first(), color)
        }
    }

    /// The cursor changes that writing the characters of a string asks for,
    /// in order.
    pub open spec fn put_chars_updates(self, chars: Seq<char>, color: VgaColor) -> Seq<CrtcOp>
        decreases chars.len(),
    {
        if chars.len() == 0 {
            Seq::empty()
        } else {
            (if chars[0] as u32 <= 0x7F {
                self.put_updates(chars[0] as u8, color)
            } else {
                Seq::empty()
            }) + self.put_char(chars[0], color).put_chars_updates(chars.drop_first(), color)
        }
    }
}

/// Whether every character of `text` is shown as it is.
pub open spec fn all_visible(text: Seq<u8>) -> bool {
    forall|i: int| 0 <= i < text.len() ==> visible(#[trigger] text[i])
}

/// Writing two texts one after the other is writing them as one.
pub proof fn lemma_put_all_joined(screen: Screen, first: Seq<u8>, second: Seq<u8>, color: VgaColor)
    ensures
        screen.put_all(first + second, color) == screen.put_all(first, color).put_all(
            second,
            color,
        ),
    decreases first.len(),
{
    if first.len() == 0 {
        assert(first + second =~= second);
    } else {
        assert((first + second).drop_first() =~= first.drop_first() + second);
        lemma_put_all_joined(screen.put(first[0], color), first.drop_first(), second, color);
    }
}

/// Visible characters that fit on the screen from the position on go to the
/// cells from the position on, one each, and change no other cell.
pub proof fn lemma_put_all_fits(screen: Screen, text: Seq<u8>, color: VgaColor)
    requires
        screen.wf(),
        all_visible(text),
        screen.pos + text.len() <= VGA_BUFFER_LEN,
    ensures
        screen.put_all(text, color).wf(),
        screen.put_all(text, color).pos == screen.pos + text.len(),
        forall|j: int|
            0 <= j < VGA_BUFFER_LEN ==> #[trigger] screen.put_all(text, color).cells[j] == (
            if screen.pos <= j < screen.pos + text.len() {
                glyph_cell(screen.cells[j], text[j - screen.pos], color)
            } else {
                screen.cells[j]
            }),
    decreases text.len(),
{
    if text.len() > 0 {
        let next = screen.put(text[0], color);
        let rest = text.drop_first();
        assert(visible(text[0]));
        assert forall|i: int| 0 <= i < rest.len() implies visible(#[trigger] rest[i]) by {
            assert(rest[i] == text[i + 1]);
        }
        lemma_put_all_fits(next, rest, color);
        assert forall|j: int| 0 <= j < VGA_BUFFER_LEN implies #[trigger] screen.put_all(
            text,
            color,
        ).cells[j] == if screen.pos <= j < screen.pos + text.len() {
            glyph_cell(screen.cells[j], text[j - screen.pos], color)
        } else {
            screen.cells[j]
        } by {
            if next.pos <= j < next.pos + rest.len() {
                assert(rest[j - next.pos] == text[j - screen.pos]);
            }
        }
    }
}

/// Visible characters that fill the screen from its first cell and go on for
/// up to one more row scroll the screen once: the position ends on the last
/// row, as many cells in as characters went on, and every row but the last
/// shows what the row below it showed when the screen was full.
pub proof fn lemma_overflow_scrolls_once(screen: Screen, text: Seq<u8>, color: VgaColor)
    requires
        screen.wf(),
        screen.pos == 0,
        all_visible(text),
        VGA_BUFFER_LEN < text.len() <= VGA_BUFFER_LEN + VGA_WIDTH,
    ensures
        ({
            let full = screen.put_all(text.take(VGA_BUFFER_LEN as int), color);
            let end = screen.put_all(text, color);
            &&& full.wf() && full.pos == VGA_BUFFER_LEN
            &&& end.wf() && end.pos == text.len() - VGA_WIDTH
            &&& forall|j: int|
                0 <= j < VGA_BUFFER_LEN - VGA_WIDTH ==> #[trigger] end.cells[j] == full.cells[j
                    + VGA_WIDTH]
        }),
{
    let filling = text.take(VGA_BUFFER_LEN as int);
    let more = text.skip(VGA_BUFFER_LEN as int);
    assert(text =~= filling + more);
    lemma_put_all_joined(screen, filling, more, color);
    assert forall|i: int| 0 <= i < filling.len() implies visible(#[trigger] filling[i]) by {
        assert(filling[i] == text[i]);
    }
    lemma_put_all_fits(screen, filling, color);
    let full = screen.put_all(filling, color);
    assert(visible(more[0])) by {
        assert(more[0] == text[VGA_BUFFER_LEN as int]);
    }
    let scrolled_once = full.put(more[0], color);
    let rest = more.drop_first();
    assert forall|i: int| 0 <= i < rest.len() implies visible(#[trigger] rest[i]) by {
        assert(rest[i] == text[VGA_BUFFER_LEN + 1 + i]);
    }
    lemma_put_all_fits(scrolled_once, rest, color);
    let end = screen.put_all(text, color);
    assert(end == scrolled_once.put_all(rest, color));
    assert forall|j: int| 0 <= j < VGA_BUFFER_LEN - VGA_WIDTH implies #[trigger] end.cells[j]
        == full.cells[j + VGA_WIDTH] by {
        assert(end.cells[j] == scrolled_once.cells[j]);
    }
}

/// The cursor changes of two texts written one after the other are those of
/// the first, then those of the second on the screen that the first left.
pub proof fn lemma_put_all_updates_joined(
    screen: Screen,
    first: Seq<u8>,
    second: Seq<u8>,
    color: VgaColor,
)
    ensures
        screen.put_all_updates(first + second, color) == screen.put_all_updates(first, color)
            + screen.put_all(first, color).put_all_updates(second, color),
    decreases first.len(),
{
    if first.len() == 0 {
        assert(first + second =~= second);
        assert(Seq::<CrtcOp>::empty() + screen.put_all_updates(second, color)
            =~= screen.put_all_updates(second, color));
    } else {
        assert((first + second).drop_first() =~= first.drop_first() + second);
        let next = screen.put(first[0], color);
        lemma_put_all_updates_joined(next, first.drop_first(), second, color);
        let head = screen.put_updates(first[0], color);
        let middle = next.put_all_updates(first.drop_first(), color);
        let tail = next.put_all(first.drop_first(), color).put_all_updates(second, color);
        assert(head + (middle + tail) =~= (head + middle) + tail);
    }
}

/// Bytes above the range of ASCII leave the screen as it was and ask for no
/// cursor change.
pub proof fn lemma_high_bytes_are_dropped(screen: Screen, text: Seq<u8>, color: VgaColor)
    requires
        forall|i: int| 0 <= i < text.len() ==> #[trigger] text[i] >= 0x80,
    ensures
        screen.put_all(text, color) == screen,
        screen.put_all_updates(text, color) == Seq::<CrtcOp>::empty(),
    decreases text.len(),
{
    if text.len() > 0 {
        assert(text[0] >= 0x80);
        let rest = text.drop_first();
        assert forall|i: int| 0 <= i < rest.len() implies #[trigger] rest[i] >= 0x80 by {
            assert(rest[i] == text[i + 1]);
        }
        lemma_high_bytes_are_dropped(screen, rest, color);
        assert(Seq::<CrtcOp>::empty() + Seq::<CrtcOp>::empty() =~= Seq::<CrtcOp>::empty());
    }
}

/// The UTF-8 form of an ASCII character is its one byte; every byte of the
/// UTF-8 form of any other character lies above the range of ASCII.
proof fn lemma_utf8_bytes(c: char)
    ensures
        c as u32 <= 0x7F ==> encode_scalar(c as u32) == seq![c as u8],
        c as u32 > 0x7F ==> forall|i: int|
            0 <= i < encode_scalar(c as u32).len() ==> #[trigger] encode_scalar(c as u32)[i]
                >= 0x80,
{
    let v = c as u32;
    if v <= 0x7F {
        assert((v & 0x7F) as u8 == v) by (bit_vector)
            requires
                v <= 0x7F,
        ;
        assert(encode_scalar(v) =~= seq![c as u8]);
    } else {
        assert(forall|x: u8|
            0x80u8 | x >= 0x80 && 0xC0u8 | x >= 0x80 && 0xE0u8 | x >= 0x80 && 0xF0u8 | x >= 0x80)
            by (bit_vector);
    }
}

/// Writing the UTF-8 form of a string byte by byte writes its ASCII
/// characters and drops the others.
pub proof fn lemma_put_utf8(screen: Screen, chars: Seq<char>, color: VgaColor)
    ensures
        screen.put_all(encode_utf8(chars), color) == screen.put_chars(chars, color),
        screen.put_all_updates(encode_utf8(chars), color) == screen.put_chars_updates(
            chars,
            color,
        ),
    decreases chars.len(),
{
    if chars.len() > 0 {
        let c = chars[0];
        let first = encode_scalar(c as u32);
        let rest = encode_utf8(chars.drop_first());
        let next = screen.put_char(c, color);
        lemma_utf8_bytes(c);
        lemma_put_all_joined(screen, first, rest, color);
        lemma_put_all_updates_joined(screen, first, rest, color);
        if c as u32 <= 0x7F {
            let byte = c as u8;
            assert(first.len() == 1 && first[0] == byte);
            assert(first.drop_first() =~= Seq::<u8>::empty());
            assert(screen.put_all(first, color) == screen.put(byte, color)) by {
                reveal_with_fuel(Screen::put_all, 2);
            }
            assert(screen.put_all_updates(first, color) =~= screen.put_updates(byte, color)) by {
                reveal_with_fuel(Screen::put_all_updates, 2);
            }
        } else {
            lemma_high_bytes_are_dropped(screen, first, color);
        }
        lemma_put_utf8(next, chars.drop_first(), color);
    }
}

/// Whether a writer is granted where `live` writers are live.
pub open spec fn granted(live: int) -> bool {
    live <= 0
}

/// While a writer that was granted is live, no other writer is granted.
pub proof fn lemma_one_writer(live: int)
    requires
        0 <= live,
        granted(live),
    ensures
        !granted(live + 1),
{
}

/// The count of live writers of one screen.
pub struct VgaNesting {
    live: isize,
}

impl VgaNesting {
    #[verifier::type_invariant]
    spec fn never_negative(&self) -> bool {
        self.live >= 0
    }

    /// Number of live writers.
    pub closed spec fn live(&self) -> int {
        self.live as int
    }

    /// The count for a screen that nobody writes to.
    pub fn new() -> (nesting: Self)
        ensures
            nesting.live() == 0,
    {
        Self { live: 0 }
    }

    /// Whether a writer is live.
    pub fn is_live(&self) -> (live: bool)
        ensures
            live == (self.live() > 0),
            live == !granted(self.live()),
            self.live() >= 0,
    {
        proof {
            use_type_invariant(self);
        }
        self.live > 0
    }
}

/// A writer to the text screen.
pub struct VgaWriter {
    pos: usize,
    buf: [u16; 2000],
    cursor: VgaCursor,
}

impl View for VgaWriter {
    type V = Screen;

    closed spec fn view(&self) -> Screen {
        Screen { pos: self.pos as nat, cells: self.buf@ }
    }
}

impl VgaWriter {
    #[verifier::type_invariant]
    spec fn position_on_screen(&self) -> bool {
        self.pos <= VGA_BUFFER_LEN
    }

    /// Whether the writer has switched the hardware cursor on.
    pub closed spec fn cursor_enabled(&self) -> bool {
        self.cursor.enabled()
    }

    /// A writer to the screen that shows `cells`, with its position at the
    /// first cell and the cursor taken to be off; or nothing, and `nesting`
    /// as it was, where a writer is live already.
    pub fn new(nesting: &mut VgaNesting, cells: [u16; 2000]) -> (writer: Option<Self>)
        ensures
            granted(old(nesting).live()) <==> writer.is_some(),
            writer.is_none() ==> final(nesting).live() == old(nesting).live(),
            writer.is_some() ==> final(nesting).live() == old(nesting).live() + 1,
            writer matches Some(w) ==> w@ == (Screen { pos: 0, cells: cells@ }) && w@.wf()
                && !w.cursor_enabled(),
    {
        proof {
            use_type_invariant(&*nesting);
        }
        if nesting.live > 0 {
            return None;
        }
        let cursor = VgaCursor::new();
        nesting.live = nesting.live + 1;
        Some(Self { buf: cells, pos: 0, cursor })
    }

    /// Ends the writer: another one can be made.
    pub fn release(self, nesting: &mut VgaNesting)
        requires
            old(nesting).live() > 0,
        ensures
            final(nesting).live() == old(nesting).live() - 1,
    {
        nesting.live = nesting.live - 1;
    }

    /// Index of the cell that the next character goes to.
    pub fn position(&self) -> (pos: usize)
        ensures
            pos == self@.pos,
            pos <= VGA_BUFFER_LEN,
            self@.wf(),
    {
        proof {
            use_type_invariant(self);
        }
        self.pos
    }

    /// The cells of the screen, row by row.
    pub fn cells(&self) -> (cells: &[u16; 2000])
        ensures
            cells@ == self@.cells,
    {
        &self.buf
    }

    fn read(&self, index: usize) -> (cell: u16)
        requires
            index < VGA_BUFFER_LEN,
        ensures
            cell == self@.cells[index as int],
    {
        self.buf[index]
    }

    fn write(&mut self, index: usize, val: u16)
        requires
            index < VGA_BUFFER_LEN,
        ensures
            final(self)@ == (Screen {
                cells: old(self)@.cells.update(index as int, val),
                ..old(self)@
            }),
            final(self).cursor_enabled() == old(self).cursor_enabled(),
    {
        proof {
            use_type_invariant(&*self);
        }
        self.buf[index] = val;
    }

    /// Makes every cell blank on `background_color` and moves the position
    /// to the first cell.
    pub fn clear(&mut self, background_color: VgaColor)
        ensures
            final(self)@ == old(self)@.cleared(background_color),
            final(self)@.wf(),
            final(self).cursor_enabled() == old(self).cursor_enabled(),
    {
        let code: u16 = background_color.code();
        let blank: u16 = (code << 12) & 0xF000;
        assert(blank == blank_cell(background_color)) by {
            assert(code <= 15 ==> (code << 12) & 0xF000 == code * 4096) by (bit_vector);
        }
        let mut i: usize = 0;
        while i < VGA_BUFFER_LEN
            invariant
                i <= VGA_BUFFER_LEN,
                blank == blank_cell(background_color),
                self@.pos == old(self)@.pos,
                self@.cells.len() == VGA_BUFFER_LEN,
                self.cursor_enabled() == old(self).cursor_enabled(),
                forall|j: int| 0 <= j < i ==> self@.cells[j] == blank,
            decreases VGA_BUFFER_LEN - i,
        {
            self.write(i, blank);
            i += 1;
        }
        self.pos = 0;
        assert(self@.cells =~= old(self)@.cleared(background_color).cells);
    }

    /// Switches the hardware cursor on and moves it to the position.
    pub fn enable_cursor(&mut self) -> (ops: Vec<CrtcOp>)
        ensures
            final(self)@ == old(self)@,
            final(self).cursor_enabled(),
            old(self).cursor_enabled() ==> ops@ == cursor_update(old(self)@.pos),
            !old(self).cursor_enabled() ==> ops@ == cursor_show(CURSOR_HEIGHT) + cursor_update(
                old(self)@.pos,
            ),
    {
        proof {
            use_type_invariant(&*self);
        }
        let mut cursor = self.cursor;
        let mut ops = cursor.enable(CURSOR_HEIGHT);
        self.cursor = cursor;
        let ghost shown = ops@;
        let update = self.cursor.update(self.pos as u16);
        ops.push(update[0]);
        ops.push(update[1]);
        assert(ops@ =~= shown + cursor_update(self@.pos));
        ops
    }

    /// Switches the hardware cursor off.
    pub fn disable_cursor(&mut self) -> (ops: Vec<CrtcOp>)
        ensures
            final(self)@ == old(self)@,
            !final(self).cursor_enabled(),
            old(self).cursor_enabled() ==> ops@ == cursor_hide(),
            !old(self).cursor_enabled() ==> ops@ == Seq::<CrtcOp>::empty(),
    {
        proof {
            use_type_invariant(&*self);
        }
        let mut cursor = self.cursor;
        let ops = cursor.disable();
        self.cursor = cursor;
        ops
    }

    /// Writes the character `c` in the colour `text_color` and moves the
    /// hardware cursor to the new position.
    pub fn putc(&mut self, c: u8, text_color: VgaColor) -> (ops: Vec<CrtcOp>)
        ensures
            final(self)@ == old(self)@.put(c, text_color),
            final(self)@.wf(),
            final(self).cursor_enabled() == old(self).cursor_enabled(),
            ops@ == old(self)@.put_updates(c, text_color) + cursor_update(final(self)@.pos),
    {
        let mut ops: Vec<CrtcOp> = Vec::new();
        self.putc_internal(c, text_color, &mut ops);
        self.mirror_cursor(&mut ops);
        ops
    }

    /// Writes the ASCII characters of `s` in the colour `text_color`, drops
    /// its other characters, and then moves the hardware cursor to the new
    /// position.
    pub fn puts(&mut self, s: &str, text_color: VgaColor) -> (ops: Vec<CrtcOp>)
        ensures
            final(self)@ == old(self)@.put_chars(s@, text_color),
            final(self)@.wf(),
            final(self).cursor_enabled() == old(self).cursor_enabled(),
            ops@ == old(self)@.put_chars_updates(s@, text_color) + cursor_update(
                final(self)@.pos,
            ),
    {
        let bytes = s.as_bytes();
        let mut ops: Vec<CrtcOp> = Vec::new();
        let mut i: usize = 0;
        proof {
            use_type_invariant(&*self);
            assert(bytes@.skip(0) =~= bytes@);
            lemma_put_utf8(self@, s@, text_color);
        }
        while i < bytes.len()
            invariant
                i <= bytes@.len(),
                bytes@ == s.spec_bytes(),
                self@.wf(),
                self.cursor_enabled() == old(self).cursor_enabled(),
                old(self)@.put_all(bytes@, text_color) == self@.put_all(
                    bytes@.skip(i as int),
                    text_color,
                ),
                old(self)@.put_all_updates(bytes@, text_color) == ops@ + self@.put_all_updates(
                    bytes@.skip(i as int),
                    text_color,
                ),
            decreases bytes@.len() - i,
        {
            proof {
                assert(bytes@.skip(i as int).drop_first() =~= bytes@.skip(i + 1));
            }
            let ghost before = ops@;
            let ghost screen = self@;
            self.putc_internal(bytes[i], text_color, &mut ops);
            proof {
                let rest = screen.put(bytes@[i as int], text_color).put_all_updates(
                    bytes@.skip(i + 1),
                    text_color,
                );
                assert(before + (screen.put_updates(bytes@[i as int], text_color) + rest) =~= (
                before + screen.put_updates(bytes@[i as int], text_color)) + rest);
            }
            i += 1;
        }
        self.mirror_cursor(&mut ops);
        ops
    }

    /// Appends to `ops` the changes that move the hardware cursor to the
    /// position.
    fn mirror_cursor(&self, ops: &mut Vec<CrtcOp>)
        ensures
            final(ops)@ == old(ops)@ + cursor_update(self@.pos),
    {
        proof {
            use_type_invariant(self);
        }
        let update = self.cursor.update(self.pos as u16);
        ops.push(update[0]);
        ops.push(update[1]);
        assert(ops@ =~= old(ops)@ + cursor_update(self@.pos));
    }

    /// Writes the character `c` and appends to `ops` the cursor changes that
    /// this asks for by itself.
    fn putc_internal(&mut self, c: u8, text_color: VgaColor, ops: &mut Vec<CrtcOp>)
        ensures
            final(self)@ == old(self)@.put(c, text_color),
            final(self)@.wf(),
            final(self).cursor_enabled() == old(self).cursor_enabled(),
            final(ops)@ == old(ops)@ + old(self)@.put_updates(c, text_color),
    {
        proof {
            use_type_invariant(&*self);
        }
        if !Self::is_printable(c) {
            assert(ops@ =~= old(ops)@ + old(self)@.put_updates(c, text_color));
            return ;
        }
        if !Self::is_trivially_printable(c) {
            self.put_control_char(c, text_color, ops);
            return ;
        }
        self.put_visible(c, text_color);
        assert(ops@ =~= old(ops)@ + old(self)@.put_updates(c, text_color));
    }

    /// Writes the visible character `c` into the cell at the position, after
    /// a scroll where the screen was full, and moves the position on.
    fn put_visible(&mut self, c: u8, text_color: VgaColor)
        requires
            old(self)@.wf(),
        ensures
            final(self)@ == old(self)@.put_visible(c, text_color),
            final(self)@.wf(),
            final(self).cursor_enabled() == old(self).cursor_enabled(),
    {
        if self.pos >= VGA_BUFFER_LEN {
            self.scroll();
        }
        let under: u16 = self.read(self.pos);
        let val: u16 = Self::glyph(under, c, text_color);
        self.write(self.pos, val);
        self.pos += 1;
    }

    /// The cell that shows `c` in `text_color` on the background of `under`.
    fn glyph(under: u16, c: u8, text_color: VgaColor) -> (cell: u16)
        ensures
            cell == glyph_cell(under, c, text_color),
    {
        let code: u16 = text_color.code();
        let character: u16 = c as u16;
        assert(code <= 15 && character <= 255 ==> under & 0xF000 | character | ((code << 8)
            & 0x0F00) == under / 4096 * 4096 + code * 256 + character) by (bit_vector);
        under & 0xF000 | character | ((code << 8) & 0x0F00)
    }

    fn put_control_char(&mut self, c: u8, text_color: VgaColor, ops: &mut Vec<CrtcOp>)
        requires
            old(self)@.wf(),
            printable(c) && !visible(c),
        ensures
            final(self)@ == old(self)@.put(c, text_color),
            final(self)@.wf(),
            final(self).cursor_enabled() == old(self).cursor_enabled(),
            final(ops)@ == old(ops)@ + old(self)@.put_updates(c, text_color),
    {
        if c == 9 {
            let mut n: usize = 0;
            proof {
                reveal_with_fuel(Screen::put_blanks, 1);
                reveal_with_fuel(Screen::blank_updates, 1);
            }
            while n < TAB_LEN
                invariant
                    n <= TAB_LEN,
                    self@.wf(),
                    self.cursor_enabled() == old(self).cursor_enabled(),
                    old(self)@.put_blanks(text_color, TAB_LEN as nat) == self@.put_blanks(
                        text_color,
                        (TAB_LEN - n) as nat,
                    ),
                    old(self)@.blank_updates(text_color, TAB_LEN as nat) == (ops@.subrange(
                        old(ops)@.len() as int,
                        ops@.len() as int,
                    )) + self@.blank_updates(text_color, (TAB_LEN - n) as nat),
                    ops@.len() >= old(ops)@.len(),
                    ops@.subrange(0, old(ops)@.len() as int) == old(ops)@,
                decreases TAB_LEN - n,
            {
                let ghost before = ops@;
                let ghost screen = self@;
                self.put_visible(32, text_color);
                self.mirror_cursor(ops);
                proof {
                    let start = old(ops)@.len() as int;
                    let rest = self@.blank_updates(text_color, (TAB_LEN - n - 1) as nat);
                    assert(ops@.subrange(start, ops@.len() as int) =~= before.subrange(
                        start,
                        before.len() as int,
                    ) + cursor_update(self@.pos));
                    assert(before.subrange(start, before.len() as int) + (cursor_update(
                        self@.pos,
                    ) + rest) =~= (before.subrange(start, before.len() as int) + cursor_update(
                        self@.pos,
                    )) + rest);
                    assert(ops@.subrange(0, start) =~= before.subrange(0, start));
                }
                n += 1;
            }
            assert(ops@ =~= old(ops)@ + ops@.subrange(old(ops)@.len() as int, ops@.len() as int));
        } else if c == 10 {
            if self.pos >= VGA_BUFFER_LEN {
                self.scroll();
            }
            self.pos += VGA_WIDTH - self.pos % VGA_WIDTH;
            assert(ops@ =~= old(ops)@ + old(self)@.put_updates(c, text_color));
        } else if c == 8 {
            if self.pos >= VGA_BUFFER_LEN {
                self.scroll();
            }
            let under: u16 = self.read(self.pos);
            let val: u16 = Self::glyph(under, 32, text_color);
            self.write(self.pos, val);
            assert(ops@ =~= old(ops)@ + old(self)@.put_updates(c, text_color));
        } else {
            assert(ops@ =~= old(ops)@ + old(self)@.put_updates(c, text_color));
        }
    }

    fn is_trivially_printable(c: u8) -> (yes: bool)
        ensures
            yes == visible(c),
    {
        c >= 32 && c < 127
    }

    fn is_printable(c: u8) -> (yes: bool)
        ensures
            yes == printable(c),
    {
        c != 0 && c < 127
    }

    /// Moves every row up by one and the position back by one row. The last
    /// row keeps what it showed.
    fn scroll(&mut self)
        requires
            old(self)@.wf(),
            old(self)@.pos >= VGA_BUFFER_LEN,
        ensures
            final(self)@ == old(self)@.make_room(),
            final(self)@.wf(),
            final(self)@.pos < VGA_BUFFER_LEN,
            final(self).cursor_enabled() == old(self).cursor_enabled(),
    {
        let mut i: usize = 0;
        while i < VGA_BUFFER_LEN - VGA_WIDTH
            invariant
                i <= VGA_BUFFER_LEN - VGA_WIDTH,
                self@.pos == old(self)@.pos,
                self@.cells.len() == VGA_BUFFER_LEN,
                old(self)@.wf(),
                self.cursor_enabled() == old(self).cursor_enabled(),
                forall|j: int| 0 <= j < i ==> self@.cells[j] == old(self)@.cells[j + VGA_WIDTH],
                forall|j: int| i <= j < VGA_BUFFER_LEN ==> self@.cells[j] == old(self)@.cells[j],
            decreases VGA_BUFFER_LEN - VGA_WIDTH - i,
        {
            let cell: u16 = self.read(i + VGA_WIDTH);
            self.write(i, cell);
            i += 1;
        }
        self.pos -= VGA_WIDTH;
        assert(self@.cells =~= scrolled(old(self)@.cells));
    }
}

} // verus!
