//! The serial port: a 16550 UART behind eight I/O ports.
//!
//! The driver decides what is written to the ports and what follows from what
//! was read; the accesses themselves are the caller's. Initialisation comes in
//! two steps. [`Com::init`] gives the accesses that configure the port, put it
//! into loopback mode, send a test byte and read it back. The caller performs
//! them in order and hands the byte that the last of them read to
//! [`Com::finish_init`], which either gives the one write that ends loopback
//! mode or reports faulty hardware, and then nothing more is to be written.
//! Nothing is retried and nothing waits: `putc` and `getc` are one access
//! each, whatever the state of the line.

use vstd::prelude::*;
use crate::arch::x86::ports::{PortOp, PortRO, PortRW, PortRead, PortTrait, PortWO, PortWrite};
use crate::bits::{
    field, flag, flag_bits, get_field, get_flag, lemma_field_bounds, lemma_field_stored,
    lemma_flag_bits, lemma_low_masks, lemma_store_keeps, lemma_with_field_in_byte, low_mask,
    set_field, set_flag, with_field, with_flag,
};

verus! {

/// Base port of the first serial port.
pub const COM1_PORT_BASE: u16 = 0x03F8;

/// Base port of the second serial port.
pub const COM2_PORT_BASE: u16 = 0x02F8;

/// Why a serial port could not be initialised.
#[derive(Clone, Copy, Debug, PartialEq, Eq)]
pub enum ComInitError {
    /// The test byte did not come back in loopback mode.
    FaultyHardware,
}

/// The interrupt-enable register.
pub struct IntEnableReg(PortRW);

impl IntEnableReg {
    /// The number of the register's port.
    pub closed spec fn number(&self) -> u16 {
        self.0.number()
    }

    /// The read of the register. The byte that it gives is decoded by
    /// [`IntEnableFlags::from_bits`].
    pub fn read(&self) -> (op: PortOp)
        ensures
            op == (PortOp::ReadByte { port: self.number() }),
    {
        self.0.read_byte()
    }

    /// The write of `item` to the register.
    pub fn write(&self, item: IntEnableFlags) -> (op: PortOp)
        ensures
            op == (PortOp::WriteByte { port: self.number(), value: item.bits() }),
    {
        self.0.write_byte(item.into_bits())
    }
}

/// The fields of an interrupt-enable word, unpacked.
pub struct IntEnableFlagsFields {
    /// Whether received data raises an interrupt (bit 0).
    pub rx_available: bool,
    /// Whether an empty transmit buffer raises an interrupt (bit 1).
    pub tx_empty: bool,
    /// Whether a change of the line status raises an interrupt (bit 2).
    pub rx_line_status: bool,
    /// Whether a change of the modem status raises an interrupt (bit 3).
    pub modem_status: bool,
    /// Bits that the UART reserves (bits 4..8).
    pub reserved: nat,
}

/// The fields that the word `bits` holds when it is read as an interrupt-enable word.
pub open spec fn int_enable_fields(bits: u64) -> IntEnableFlagsFields {
    IntEnableFlagsFields {
        rx_available: flag(bits, 0),
        tx_empty: flag(bits, 1),
        rx_line_status: flag(bits, 2),
        modem_status: flag(bits, 3),
        reserved: field(bits, 4, 4) as nat,
    }
}

/// The fields of the interrupt-enable word whose bits are all clear.
pub open spec fn int_enable_zero() -> IntEnableFlagsFields {
    IntEnableFlagsFields {
        rx_available: false,
        tx_empty: false,
        rx_line_status: false,
        modem_status: false,
        reserved: 0,
    }
}

/// Whether `[low, low + width)` is one of the fields of an interrupt-enable word.
pub open spec fn is_int_enable_field(low: u64, width: u64) -> bool {
    ||| (low == 0 && width == 1)
    ||| (low == 1 && width == 1)
    ||| (low == 2 && width == 1)
    ||| (low == 3 && width == 1)
    ||| (low == 4 && width == 4)
}

/// The word zero holds the interrupt-enable word whose fields are all clear.
pub proof fn lemma_int_enable_zero()
    ensures
        int_enable_fields(0) == int_enable_zero(),
{
    lemma_field_bounds(0, 0, 1);
    lemma_field_bounds(0, 1, 1);
    lemma_field_bounds(0, 2, 1);
    lemma_field_bounds(0, 3, 1);
    lemma_field_bounds(0, 4, 4);
}

/// The fields of an interrupt-enable word take up the whole word: two words that hold the
/// same fields are the same word.
pub proof fn lemma_int_enable_fields_cover(x: u8, y: u8)
    requires
        int_enable_fields(x as u64) == int_enable_fields(y as u64),
    ensures
        x == y,
{
    let a = x as u64;
    let b = y as u64;
    assert(a == b) by (bit_vector)
        requires
            a <= 0xFF,
            b <= 0xFF,
            flag(a, 0) == flag(b, 0),
            flag(a, 1) == flag(b, 1),
            flag(a, 2) == flag(b, 2),
            flag(a, 3) == flag(b, 3),
            field(a, 4, 4) == field(b, 4, 4),
    ;
}

/// Storing into one field of an interrupt-enable word changes that field and no other.
pub proof fn lemma_int_enable_store(bits: u64, low: u64, width: u64, value: u64)
    requires
        is_int_enable_field(low, width),
        value <= low_mask(width),
    ensures
        ({
            let before = int_enable_fields(bits);
            let after = int_enable_fields(with_field(bits, low, width, value));
            &&& after.rx_available == if low == 0 { value == 1 } else { before.rx_available }
            &&& after.tx_empty == if low == 1 { value == 1 } else { before.tx_empty }
            &&& after.rx_line_status == if low == 2 { value == 1 } else { before.rx_line_status }
            &&& after.modem_status == if low == 3 { value == 1 } else { before.modem_status }
            &&& after.reserved == if low == 4 { value as nat } else { before.reserved }
        }),
{
    lemma_field_stored(bits, low, width, value);
    lemma_store_keeps(bits, low, width, value, 0, 1);
    lemma_store_keeps(bits, low, width, value, 1, 1);
    lemma_store_keeps(bits, low, width, value, 2, 1);
    lemma_store_keeps(bits, low, width, value, 3, 1);
    lemma_store_keeps(bits, low, width, value, 4, 4);
}

/// What the interrupt-enable register holds.
#[derive(Clone, Copy, Debug, PartialEq, Eq)]
pub struct IntEnableFlags(u8);

impl View for IntEnableFlags {
    type V = IntEnableFlagsFields;

    open spec fn view(&self) -> IntEnableFlagsFields {
        int_enable_fields(self.bits() as u64)
    }
}

impl IntEnableFlags {
    /// The word that the interrupt-enable word is stored as.
    pub closed spec fn bits(self) -> u8 {
        self.0
    }

    /// The interrupt-enable word whose fields are all clear.
    pub fn new() -> (record: Self)
        ensures
            record.bits() == 0,
            record@ == int_enable_zero(),
    {
        proof {
            lemma_int_enable_zero();
        }
        Self(0)
    }

    /// The interrupt-enable word that is stored as `bits`.
    pub fn from_bits(bits: u8) -> (record: Self)
        ensures
            record.bits() == bits,
    {
        Self(bits)
    }

    /// The word that the interrupt-enable word is stored as.
    pub fn into_bits(self) -> (bits: u8)
        ensures
            bits == self.bits(),
    {
        self.0
    }

    /// Whether received data raises an interrupt.
    pub fn rx_available(&self) -> (value: bool)
        ensures
            value == self@.rx_available,
    {
        get_flag(self.0 as u64, 0)
    }

    /// The same interrupt-enable word with `rx_available` replaced by `value`.
    pub fn with_rx_available(self, value: bool) -> (record: Self)
        ensures
            record.bits() == with_flag(self.bits() as u64, 0, value),
            record@ == (IntEnableFlagsFields { rx_available: value, ..self@ }),
    {
        proof {
            lemma_flag_bits(value);
            lemma_int_enable_store(self.0 as u64, 0, 1, flag_bits(value));
            lemma_with_field_in_byte(self.0 as u64, 0, 1, flag_bits(value));
        }
        Self(set_flag(self.0 as u64, 0, value) as u8)
    }

    /// Whether an empty transmit buffer raises an interrupt.
    pub fn tx_empty(&self) -> (value: bool)
        ensures
            value == self@.tx_empty,
    {
        get_flag(self.0 as u64, 1)
    }

    /// The same interrupt-enable word with `tx_empty` replaced by `value`.
    pub fn with_tx_empty(self, value: bool) -> (record: Self)
        ensures
            record.bits() == with_flag(self.bits() as u64, 1, value),
            record@ == (IntEnableFlagsFields { tx_empty: value, ..self@ }),
    {
        proof {
            lemma_flag_bits(value);
            lemma_int_enable_store(self.0 as u64, 1, 1, flag_bits(value));
            lemma_with_field_in_byte(self.0 as u64, 1, 1, flag_bits(value));
        }
        Self(set_flag(self.0 as u64, 1, value) as u8)
    }

    /// Whether a change of the line status raises an interrupt.
    pub fn rx_line_status(&self) -> (value: bool)
        ensures
            value == self@.rx_line_status,
    {
        get_flag(self.0 as u64, 2)
    }

    /// The same interrupt-enable word with `rx_line_status` replaced by `value`.
    pub fn with_rx_line_status(self, value: bool) -> (record: Self)
        ensures
            record.bits() == with_flag(self.bits() as u64, 2, value),
            record@ == (IntEnableFlagsFields { rx_line_status: value, ..self@ }),
    {
        proof {
            lemma_flag_bits(value);
            lemma_int_enable_store(self.0 as u64, 2, 1, flag_bits(value));
            lemma_with_field_in_byte(self.0 as u64, 2, 1, flag_bits(value));
        }
        Self(set_flag(self.0 as u64, 2, value) as u8)
    }

    /// Whether a change of the modem status raises an interrupt.
    pub fn modem_status(&self) -> (value: bool)
        ensures
            value == self@.modem_status,
    {
        get_flag(self.0 as u64, 3)
    }

    /// The same interrupt-enable word with `modem_status` replaced by `value`.
    pub fn with_modem_status(self, value: bool) -> (record: Self)
        ensures
            record.bits() == with_flag(self.bits() as u64, 3, value),
            record@ == (IntEnableFlagsFields { modem_status: value, ..self@ }),
    {
        proof {
            lemma_flag_bits(value);
            lemma_int_enable_store(self.0 as u64, 3, 1, flag_bits(value));
            lemma_with_field_in_byte(self.0 as u64, 3, 1, flag_bits(value));
        }
        Self(set_flag(self.0 as u64, 3, value) as u8)
    }
}

/// The line-control register.
pub struct LineCtrlReg(PortRW);

impl LineCtrlReg {
    /// The number of the register's port.
    pub closed spec fn number(&self) -> u16 {
        self.0.number()
    }

    /// The read of the register. The byte that it gives is decoded by
    /// [`LineCtrlFlags::from_bits`].
    pub fn read(&self) -> (op: PortOp)
        ensures
            op == (PortOp::ReadByte { port: self.number() }),
    {
        self.0.read_byte()
    }

    /// The write of `item` to the register.
    pub fn write(&self, item: LineCtrlFlags) -> (op: PortOp)
        ensures
            op == (PortOp::WriteByte { port: self.number(), value: item.bits() }),
    {
        self.0.write_byte(item.into_bits())
    }
}

/// The fields of a line-control word, unpacked.
pub struct LineCtrlFlagsFields {
    /// Number of data bits of a character, less five (bits 0..2).
    pub data_bits: nat,
    /// Whether a character has more than one stop bit (bit 2).
    pub stop_bits: bool,
    /// The parity mode (bits 3..6).
    pub parity_bits: nat,
    /// Whether the line is held in the break state (bit 6).
    pub break_enable: bool,
    /// Whether the first two ports give access to the baud-rate divisor (bit 7).
    pub dlab: bool,
}

/// The fields that the word `bits` holds when it is read as a line-control word.
pub open spec fn line_ctrl_fields(bits: u64) -> LineCtrlFlagsFields {
    LineCtrlFlagsFields {
        data_bits: field(bits, 0, 2) as nat,
        stop_bits: flag(bits, 2),
        parity_bits: field(bits, 3, 3) as nat,
        break_enable: flag(bits, 6),
        dlab: flag(bits, 7),
    }
}

/// The fields of the line-control word whose bits are all clear.
pub open spec fn line_ctrl_zero() -> LineCtrlFlagsFields {
    LineCtrlFlagsFields {
        data_bits: 0,
        stop_bits: false,
        parity_bits: 0,
        break_enable: false,
        dlab: false,
    }
}

/// Whether `[low, low + width)` is one of the fields of a line-control word.
pub open spec fn is_line_ctrl_field(low: u64, width: u64) -> bool {
    ||| (low == 0 && width == 2)
    ||| (low == 2 && width == 1)
    ||| (low == 3 && width == 3)
    ||| (low == 6 && width == 1)
    ||| (low == 7 && width == 1)
}

/// The word zero holds the line-control word whose fields are all clear.
pub proof fn lemma_line_ctrl_zero()
    ensures
        line_ctrl_fields(0) == line_ctrl_zero(),
{
    lemma_field_bounds(0, 0, 2);
    lemma_field_bounds(0, 2, 1);
    lemma_field_bounds(0, 3, 3);
    lemma_field_bounds(0, 6, 1);
    lemma_field_bounds(0, 7, 1);
}

/// The fields of a line-control word take up the whole word: two words that hold the
/// same fields are the same word.
pub proof fn lemma_line_ctrl_fields_cover(x: u8, y: u8)
    requires
        line_ctrl_fields(x as u64) == line_ctrl_fields(y as u64),
    ensures
        x == y,
{
    let a = x as u64;
    let b = y as u64;
    assert(a == b) by (bit_vector)
        requires
            a <= 0xFF,
            b <= 0xFF,
            field(a, 0, 2) == field(b, 0, 2),
            flag(a, 2) == flag(b, 2),
            field(a, 3, 3) == field(b, 3, 3),
            flag(a, 6) == flag(b, 6),
            flag(a, 7) == flag(b, 7),
    ;
}

/// Storing into one field of a line-control word changes that field and no other.
pub proof fn lemma_line_ctrl_store(bits: u64, low: u64, width: u64, value: u64)
    requires
        is_line_ctrl_field(low, width),
        value <= low_mask(width),
    ensures
        ({
            let before = line_ctrl_fields(bits);
            let after = line_ctrl_fields(with_field(bits, low, width, value));
            &&& after.data_bits == if low == 0 { value as nat } else { before.data_bits }
            &&& after.stop_bits == if low == 2 { value == 1 } else { before.stop_bits }
            &&& after.parity_bits == if low == 3 { value as nat } else { before.parity_bits }
            &&& after.break_enable == if low == 6 { value == 1 } else { before.break_enable }
            &&& after.dlab == if low == 7 { value == 1 } else { before.dlab }
        }),
{
    lemma_field_stored(bits, low, width, value);
    lemma_store_keeps(bits, low, width, value, 0, 2);
    lemma_store_keeps(bits, low, width, value, 2, 1);
    lemma_store_keeps(bits, low, width, value, 3, 3);
    lemma_store_keeps(bits, low, width, value, 6, 1);
    lemma_store_keeps(bits, low, width, value, 7, 1);
}

/// What the line-control register holds.
#[derive(Clone, Copy, Debug, PartialEq, Eq)]
pub struct LineCtrlFlags(u8);

impl View for LineCtrlFlags {
    type V = LineCtrlFlagsFields;

    open spec fn view(&self) -> LineCtrlFlagsFields {
        line_ctrl_fields(self.bits() as u64)
    }
}

impl LineCtrlFlags {
    /// The word that the line-control word is stored as.
    pub closed spec fn bits(self) -> u8 {
        self.0
    }

    /// The line-control word whose fields are all clear.
    pub fn new() -> (record: Self)
        ensures
            record.bits() == 0,
            record@ == line_ctrl_zero(),
    {
        proof {
            lemma_line_ctrl_zero();
        }
        Self(0)
    }

    /// The line-control word that is stored as `bits`.
    pub fn from_bits(bits: u8) -> (record: Self)
        ensures
            record.bits() == bits,
    {
        Self(bits)
    }

    /// The word that the line-control word is stored as.
    pub fn into_bits(self) -> (bits: u8)
        ensures
            bits == self.bits(),
    {
        self.0
    }

    /// Number of data bits of a character, less five.
    pub fn data_bits(&self) -> (value: u8)
        ensures
            value == self@.data_bits,
            value <= 3,
    {
        proof {
            lemma_low_masks();
        }
        get_field(self.0 as u64, 0, 2) as u8
    }

    /// The same line-control word with `data_bits` replaced by `value`.
    pub fn with_data_bits(self, value: u8) -> (record: Self)
        requires
            value <= 3,
        ensures
            record.bits() == with_field(self.bits() as u64, 0, 2, value as u64),
            record@ == (LineCtrlFlagsFields { data_bits: value as nat, ..self@ }),
    {
        proof {
            lemma_low_masks();
            lemma_line_ctrl_store(self.0 as u64, 0, 2, value as u64);
            lemma_with_field_in_byte(self.0 as u64, 0, 2, value as u64);
        }
        Self(set_field(self.0 as u64, 0, 2, value as u64) as u8)
    }

    /// Whether a character has more than one stop bit.
    pub fn stop_bits(&self) -> (value: bool)
        ensures
            value == self@.stop_bits,
    {
        get_flag(self.0 as u64, 2)
    }

    /// The same line-control word with `stop_bits` replaced by `value`.
    pub fn with_stop_bits(self, value: bool) -> (record: Self)
        ensures
            record.bits() == with_flag(self.bits() as u64, 2, value),
            record@ == (LineCtrlFlagsFields { stop_bits: value, ..self@ }),
    {
        proof {
            lemma_flag_bits(value);
            lemma_line_ctrl_store(self.0 as u64, 2, 1, flag_bits(value));
            lemma_with_field_in_byte(self.0 as u64, 2, 1, flag_bits(value));
        }
        Self(set_flag(self.0 as u64, 2, value) as u8)
    }

    /// The parity mode.
    pub fn parity_bits(&self) -> (value: u8)
        ensures
            value == self@.parity_bits,
            value <= 7,
    {
        proof {
            lemma_low_masks();
        }
        get_field(self.0 as u64, 3, 3) as u8
    }

    /// The same line-control word with `parity_bits` replaced by `value`.
    pub fn with_parity_bits(self, value: u8) -> (record: Self)
        requires
            value <= 7,
        ensures
            record.bits() == with_field(self.bits() as u64, 3, 3, value as u64),
            record@ == (LineCtrlFlagsFields { parity_bits: value as nat, ..self@ }),
    {
        proof {
            lemma_low_masks();
            lemma_line_ctrl_store(self.0 as u64, 3, 3, value as u64);
            lemma_with_field_in_byte(self.0 as u64, 3, 3, value as u64);
        }
        Self(set_field(self.0 as u64, 3, 3, value as u64) as u8)
    }

    /// Whether the line is held in the break state.
    pub fn break_enable(&self) -> (value: bool)
        ensures
            value == self@.break_enable,
    {
        get_flag(self.0 as u64, 6)
    }

    /// The same line-control word with `break_enable` replaced by `value`.
    pub fn with_break_enable(self, value: bool) -> (record: Self)
        ensures
            record.bits() == with_flag(self.bits() as u64, 6, value),
            record@ == (LineCtrlFlagsFields { break_enable: value, ..self@ }),
    {
        proof {
            lemma_flag_bits(value);
            lemma_line_ctrl_store(self.0 as u64, 6, 1, flag_bits(value));
            lemma_with_field_in_byte(self.0 as u64, 6, 1, flag_bits(value));
        }
        Self(set_flag(self.0 as u64, 6, value) as u8)
    }

    /// Whether the first two ports give access to the baud-rate divisor.
    pub fn dlab(&self) -> (value: bool)
        ensures
            value == self@.dlab,
    {
        get_flag(self.0 as u64, 7)
    }

    /// The same line-control word with `dlab` replaced by `value`.
    pub fn with_dlab(self, value: bool) -> (record: Self)
        ensures
            record.bits() == with_flag(self.bits() as u64, 7, value),
            record@ == (LineCtrlFlagsFields { dlab: value, ..self@ }),
    {
        proof {
            lemma_flag_bits(value);
            lemma_line_ctrl_store(self.0 as u64, 7, 1, flag_bits(value));
            lemma_with_field_in_byte(self.0 as u64, 7, 1, flag_bits(value));
        }
        Self(set_flag(self.0 as u64, 7, value) as u8)
    }
}

/// The FIFO-control register.
pub struct FifoCtrlReg(PortWO);

impl FifoCtrlReg {
    /// The number of the register's port.
    pub closed spec fn number(&self) -> u16 {
        self.0.number()
    }

    /// The write of `item` to the register.
    pub fn write(&self, item: FifoCtrlFlags) -> (op: PortOp)
        ensures
            op == (PortOp::WriteByte { port: self.number(), value: item.bits() }),
    {
        self.0.write_byte(item.into_bits())
    }
}

/// The fields of a FIFO-control word, unpacked.
pub struct FifoCtrlFlagsFields {
    /// Whether the FIFOs are in use (bit 0).
    pub enable: bool,
    /// Whether the receive FIFO is emptied (bit 1).
    pub clear_rx: bool,
    /// Whether the transmit FIFO is emptied (bit 2).
    pub clear_tx: bool,
    /// The DMA mode (bit 3).
    pub dma_mode_select: bool,
    /// Bits that the UART reserves (bits 4..6).
    pub reserved: nat,
    /// How full the receive FIFO is when it raises an interrupt (bits 6..8).
    pub interrupt_trigger_level: nat,
}

/// The fields that the word `bits` holds when it is read as a FIFO-control word.
pub open spec fn fifo_ctrl_fields(bits: u64) -> FifoCtrlFlagsFields {
    FifoCtrlFlagsFields {
        enable: flag(bits, 0),
        clear_rx: flag(bits, 1),
        clear_tx: flag(bits, 2),
        dma_mode_select: flag(bits, 3),
        reserved: field(bits, 4, 2) as nat,
        interrupt_trigger_level: field(bits, 6, 2) as nat,
    }
}

/// The fields of the FIFO-control word whose bits are all clear.
pub open spec fn fifo_ctrl_zero() -> FifoCtrlFlagsFields {
    FifoCtrlFlagsFields {
        enable: false,
        clear_rx: false,
        clear_tx: false,
        dma_mode_select: false,
        reserved: 0,
        interrupt_trigger_level: 0,
    }
}

/// Whether `[low, low + width)` is one of the fields of a FIFO-control word.
pub open spec fn is_fifo_ctrl_field(low: u64, width: u64) -> bool {
    ||| (low == 0 && width == 1)
    ||| (low == 1 && width == 1)
    ||| (low == 2 && width == 1)
    ||| (low == 3 && width == 1)
    ||| (low == 4 && width == 2)
    ||| (low == 6 && width == 2)
}

/// The word zero holds the FIFO-control word whose fields are all clear.
pub proof fn lemma_fifo_ctrl_zero()
    ensures
        fifo_ctrl_fields(0) == fifo_ctrl_zero(),
{
    lemma_field_bounds(0, 0, 1);
    lemma_field_bounds(0, 1, 1);
    lemma_field_bounds(0, 2, 1);
    lemma_field_bounds(0, 3, 1);
    lemma_field_bounds(0, 4, 2);
    lemma_field_bounds(0, 6, 2);
}

/// The fields of a FIFO-control word take up the whole word: two words that hold the
/// same fields are the same word.
pub proof fn lemma_fifo_ctrl_fields_cover(x: u8, y: u8)
    requires
        fifo_ctrl_fields(x as u64) == fifo_ctrl_fields(y as u64),
    ensures
        x == y,
{
    let a = x as u64;
    let b = y as u64;
    assert(a == b) by (bit_vector)
        requires
            a <= 0xFF,
            b <= 0xFF,
            flag(a, 0) == flag(b, 0),
            flag(a, 1) == flag(b, 1),
            flag(a, 2) == flag(b, 2),
            flag(a, 3) == flag(b, 3),
            field(a, 4, 2) == field(b, 4, 2),
            field(a, 6, 2) == field(b, 6, 2),
    ;
}

/// Storing into one field of a FIFO-control word changes that field and no other.
pub proof fn lemma_fifo_ctrl_store(bits: u64, low: u64, width: u64, value: u64)
    requires
        is_fifo_ctrl_field(low, width),
        value <= low_mask(width),
    ensures
        ({
            let before = fifo_ctrl_fields(bits);
            let after = fifo_ctrl_fields(with_field(bits, low, width, value));
            &&& after.enable == if low == 0 { value == 1 } else { before.enable }
            &&& after.clear_rx == if low == 1 { value == 1 } else { before.clear_rx }
            &&& after.clear_tx == if low == 2 { value == 1 } else { before.clear_tx }
            &&& after.dma_mode_select == if low == 3 { value == 1 } else { before.dma_mode_select }
            &&& after.reserved == if low == 4 { value as nat } else { before.reserved }
            &&& after.interrupt_trigger_level == if low == 6 {
                value as nat
            } else {
                before.interrupt_trigger_level
            }
        }),
{
    lemma_field_stored(bits, low, width, value);
    lemma_store_keeps(bits, low, width, value, 0, 1);
    lemma_store_keeps(bits, low, width, value, 1, 1);
    lemma_store_keeps(bits, low, width, value, 2, 1);
    lemma_store_keeps(bits, low, width, value, 3, 1);
    lemma_store_keeps(bits, low, width, value, 4, 2);
    lemma_store_keeps(bits, low, width, value, 6, 2);
}

/// What the FIFO-control register holds.
#[derive(Clone, Copy, Debug, PartialEq, Eq)]
pub struct FifoCtrlFlags(u8);

impl View for FifoCtrlFlags {
    type V = FifoCtrlFlagsFields;

    open spec fn view(&self) -> FifoCtrlFlagsFields {
        fifo_ctrl_fields(self.bits() as u64)
    }
}

impl FifoCtrlFlags {
    /// The word that the FIFO-control word is stored as.
    pub closed spec fn bits(self) -> u8 {
        self.0
    }

    /// The FIFO-control word whose fields are all clear.
    pub fn new() -> (record: Self)
        ensures
            record.bits() == 0,
            record@ == fifo_ctrl_zero(),
    {
        proof {
            lemma_fifo_ctrl_zero();
        }
        Self(0)
    }

    /// The FIFO-control word that is stored as `bits`.
    pub fn from_bits(bits: u8) -> (record: Self)
        ensures
            record.bits() == bits,
    {
        Self(bits)
    }

    /// The word that the FIFO-control word is stored as.
    pub fn into_bits(self) -> (bits: u8)
        ensures
            bits == self.bits(),
    {
        self.0
    }

    /// Whether the FIFOs are in use.
    pub fn enable(&self) -> (value: bool)
        ensures
            value == self@.enable,
    {
        get_flag(self.0 as u64, 0)
    }

    /// The same FIFO-control word with `enable` replaced by `value`.
    pub fn with_enable(self, value: bool) -> (record: Self)
        ensures
            record.bits() == with_flag(self.bits() as u64, 0, value),
            record@ == (FifoCtrlFlagsFields { enable: value, ..self@ }),
    {
        proof {
            lemma_flag_bits(value);
            lemma_fifo_ctrl_store(self.0 as u64, 0, 1, flag_bits(value));
            lemma_with_field_in_byte(self.0 as u64, 0, 1, flag_bits(value));
        }
        Self(set_flag(self.0 as u64, 0, value) as u8)
    }

    /// Whether the receive FIFO is emptied.
    pub fn clear_rx(&self) -> (value: bool)
        ensures
            value == self@.clear_rx,
    {
        get_flag(self.0 as u64, 1)
    }

    /// The same FIFO-control word with `clear_rx` replaced by `value`.
    pub fn with_clear_rx(self, value: bool) -> (record: Self)
        ensures
            record.bits() == with_flag(self.bits() as u64, 1, value),
            record@ == (FifoCtrlFlagsFields { clear_rx: value, ..self@ }),
    {
        proof {
            lemma_flag_bits(value);
            lemma_fifo_ctrl_store(self.0 as u64, 1, 1, flag_bits(value));
            lemma_with_field_in_byte(self.0 as u64, 1, 1, flag_bits(value));
        }
        Self(set_flag(self.0 as u64, 1, value) as u8)
    }

    /// Whether the transmit FIFO is emptied.
    pub fn clear_tx(&self) -> (value: bool)
        ensures
            value == self@.clear_tx,
    {
        get_flag(self.0 as u64, 2)
    }

    /// The same FIFO-control word with `clear_tx` replaced by `value`.
    pub fn with_clear_tx(self, value: bool) -> (record: Self)
        ensures
            record.bits() == with_flag(self.bits() as u64, 2, value),
            record@ == (FifoCtrlFlagsFields { clear_tx: value, ..self@ }),
    {
        proof {
            lemma_flag_bits(value);
            lemma_fifo_ctrl_store(self.0 as u64, 2, 1, flag_bits(value));
            lemma_with_field_in_byte(self.0 as u64, 2, 1, flag_bits(value));
        }
        Self(set_flag(self.0 as u64, 2, value) as u8)
    }

    /// The DMA mode.
    pub fn dma_mode_select(&self) -> (value: bool)
        ensures
            value == self@.dma_mode_select,
    {
        get_flag(self.0 as u64, 3)
    }

    /// The same FIFO-control word with `dma_mode_select` replaced by `value`.
    pub fn with_dma_mode_select(self, value: bool) -> (record: Self)
        ensures
            record.bits() == with_flag(self.bits() as u64, 3, value),
            record@ == (FifoCtrlFlagsFields { dma_mode_select: value, ..self@ }),
    {
        proof {
            lemma_flag_bits(value);
            lemma_fifo_ctrl_store(self.0 as u64, 3, 1, flag_bits(value));
            lemma_with_field_in_byte(self.0 as u64, 3, 1, flag_bits(value));
        }
        Self(set_flag(self.0 as u64, 3, value) as u8)
    }

    /// How full the receive FIFO is when it raises an interrupt.
    pub fn interrupt_trigger_level(&self) -> (value: u8)
        ensures
            value == self@.interrupt_trigger_level,
            value <= 3,
    {
        proof {
            lemma_low_masks();
        }
        get_field(self.0 as u64, 6, 2) as u8
    }

    /// The same FIFO-control word with `interrupt_trigger_level` replaced by `value`.
    pub fn with_interrupt_trigger_level(self, value: u8) -> (record: Self)
        requires
            value <= 3,
        ensures
            record.bits() == with_field(self.bits() as u64, 6, 2, value as u64),
            record@ == (FifoCtrlFlagsFields { interrupt_trigger_level: value as nat, ..self@ }),
    {
        proof {
            lemma_low_masks();
            lemma_fifo_ctrl_store(self.0 as u64, 6, 2, value as u64);
            lemma_with_field_in_byte(self.0 as u64, 6, 2, value as u64);
        }
        Self(set_field(self.0 as u64, 6, 2, value as u64) as u8)
    }
}

/// The modem-control register.
pub struct ModemCtrlReg(PortRW);

impl ModemCtrlReg {
    /// The number of the register's port.
    pub closed spec fn number(&self) -> u16 {
        self.0.number()
    }

    /// The read of the register. The byte that it gives is decoded by
    /// [`ModemCtrlFlags::from_bits`].
    pub fn read(&self) -> (op: PortOp)
        ensures
            op == (PortOp::ReadByte { port: self.number() }),
    {
        self.0.read_byte()
    }

    /// The write of `item` to the register.
    pub fn write(&self, item: ModemCtrlFlags) -> (op: PortOp)
        ensures
            op == (PortOp::WriteByte { port: self.number(), value: item.bits() }),
    {
        self.0.write_byte(item.into_bits())
    }
}

/// The fields of a modem-control word, unpacked.
pub struct ModemCtrlFlagsFields {
    /// The data-terminal-ready line (bit 0).
    pub dtr: bool,
    /// The request-to-send line (bit 1).
    pub rts: bool,
    /// The first auxiliary output (bit 2).
    pub out1: bool,
    /// The second auxiliary output, which lets interrupts through (bit 3).
    pub irq_enable: bool,
    /// Whether what is sent is received back and nothing leaves the UART (bit 4).
    pub loopback: bool,
    /// Bits that the UART reserves (bits 5..8).
    pub reserved: nat,
}

/// The fields that the word `bits` holds when it is read as a modem-control word.
pub open spec fn modem_ctrl_fields(bits: u64) -> ModemCtrlFlagsFields {
    ModemCtrlFlagsFields {
        dtr: flag(bits, 0),
        rts: flag(bits, 1),
        out1: flag(bits, 2),
        irq_enable: flag(bits, 3),
        loopback: flag(bits, 4),
        reserved: field(bits, 5, 3) as nat,
    }
}

/// The fields of the modem-control word whose bits are all clear.
pub open spec fn modem_ctrl_zero() -> ModemCtrlFlagsFields {
    ModemCtrlFlagsFields {
        dtr: false,
        rts: false,
        out1: false,
        irq_enable: false,
        loopback: false,
        reserved: 0,
    }
}

/// Whether `[low, low + width)` is one of the fields of a modem-control word.
pub open spec fn is_modem_ctrl_field(low: u64, width: u64) -> bool {
    ||| (low == 0 && width == 1)
    ||| (low == 1 && width == 1)
    ||| (low == 2 && width == 1)
    ||| (low == 3 && width == 1)
    ||| (low == 4 && width == 1)
    ||| (low == 5 && width == 3)
}

/// The word zero holds the modem-control word whose fields are all clear.
pub proof fn lemma_modem_ctrl_zero()
    ensures
        modem_ctrl_fields(0) == modem_ctrl_zero(),
{
    lemma_field_bounds(0, 0, 1);
    lemma_field_bounds(0, 1, 1);
    lemma_field_bounds(0, 2, 1);
    lemma_field_bounds(0, 3, 1);
    lemma_field_bounds(0, 4, 1);
    lemma_field_bounds(0, 5, 3);
}

/// The fields of a modem-control word take up the whole word: two words that hold the
/// same fields are the same word.
pub proof fn lemma_modem_ctrl_fields_cover(x: u8, y: u8)
    requires
        modem_ctrl_fields(x as u64) == modem_ctrl_fields(y as u64),
    ensures
        x == y,
{
    let a = x as u64;
    let b = y as u64;
    assert(a == b) by (bit_vector)
        requires
            a <= 0xFF,
            b <= 0xFF,
            flag(a, 0) == flag(b, 0),
            flag(a, 1) == flag(b, 1),
            flag(a, 2) == flag(b, 2),
            flag(a, 3) == flag(b, 3),
            flag(a, 4) == flag(b, 4),
            field(a, 5, 3) == field(b, 5, 3),
    ;
}

/// Storing into one field of a modem-control word changes that field and no other.
pub proof fn lemma_modem_ctrl_store(bits: u64, low: u64, width: u64, value: u64)
    requires
        is_modem_ctrl_field(low, width),
        value <= low_mask(width),
    ensures
        ({
            let before = modem_ctrl_fields(bits);
            let after = modem_ctrl_fields(with_field(bits, low, width, value));
            &&& after.dtr == if low == 0 { value == 1 } else { before.dtr }
            &&& after.rts == if low == 1 { value == 1 } else { before.rts }
            &&& after.out1 == if low == 2 { value == 1 } else { before.out1 }
            &&& after.irq_enable == if low == 3 { value == 1 } else { before.irq_enable }
            &&& after.loopback == if low == 4 { value == 1 } else { before.loopback }
            &&& after.reserved == if low == 5 { value as nat } else { before.reserved }
        }),
{
    lemma_field_stored(bits, low, width, value);
    lemma_store_keeps(bits, low, width, value, 0, 1);
    lemma_store_keeps(bits, low, width, value, 1, 1);
    lemma_store_keeps(bits, low, width, value, 2, 1);
    lemma_store_keeps(bits, low, width, value, 3, 1);
    lemma_store_keeps(bits, low, width, value, 4, 1);
    lemma_store_keeps(bits, low, width, value, 5, 3);
}

/// What the modem-control register holds.
#[derive(Clone, Copy, Debug, PartialEq, Eq)]
pub struct ModemCtrlFlags(u8);

impl View for ModemCtrlFlags {
    type V = ModemCtrlFlagsFields;

    open spec fn view(&self) -> ModemCtrlFlagsFields {
        modem_ctrl_fields(self.bits() as u64)
    }
}

impl ModemCtrlFlags {
    /// The word that the modem-control word is stored as.
    pub closed spec fn bits(self) -> u8 {
        self.0
    }

    /// The modem-control word whose fields are all clear.
    pub fn new() -> (record: Self)
        ensures
            record.bits() == 0,
            record@ == modem_ctrl_zero(),
    {
        proof {
            lemma_modem_ctrl_zero();
        }
        Self(0)
    }

    /// The modem-control word that is stored as `bits`.
    pub fn from_bits(bits: u8) -> (record: Self)
        ensures
            record.bits() == bits,
    {
        Self(bits)
    }

    /// The word that the modem-control word is stored as.
    pub fn into_bits(self) -> (bits: u8)
        ensures
            bits == self.bits(),
    {
        self.0
    }

    /// The data-terminal-ready line.
    pub fn dtr(&self) -> (value: bool)
        ensures
            value == self@.dtr,
    {
        get_flag(self.0 as u64, 0)
    }

    /// The same modem-control word with `dtr` replaced by `value`.
    pub fn with_dtr(self, value: bool) -> (record: Self)
        ensures
            record.bits() == with_flag(self.bits() as u64, 0, value),
            record@ == (ModemCtrlFlagsFields { dtr: value, ..self@ }),
    {
        proof {
            lemma_flag_bits(value);
            lemma_modem_ctrl_store(self.0 as u64, 0, 1, flag_bits(value));
            lemma_with_field_in_byte(self.0 as u64, 0, 1, flag_bits(value));
        }
        Self(set_flag(self.0 as u64, 0, value) as u8)
    }

    /// The request-to-send line.
    pub fn rts(&self) -> (value: bool)
        ensures
            value == self@.rts,
    {
        get_flag(self.0 as u64, 1)
    }

    /// The same modem-control word with `rts` replaced by `value`.
    pub fn with_rts(self, value: bool) -> (record: Self)
        ensures
            record.bits() == with_flag(self.bits() as u64, 1, value),
            record@ == (ModemCtrlFlagsFields { rts: value, ..self@ }),
    {
        proof {
            lemma_flag_bits(value);
            lemma_modem_ctrl_store(self.0 as u64, 1, 1, flag_bits(value));
            lemma_with_field_in_byte(self.0 as u64, 1, 1, flag_bits(value));
        }
        Self(set_flag(self.0 as u64, 1, value) as u8)
    }

    /// The first auxiliary output.
    pub fn out1(&self) -> (value: bool)
        ensures
            value == self@.out1,
    {
        get_flag(self.0 as u64, 2)
    }

    /// The same modem-control word with `out1` replaced by `value`.
    pub fn with_out1(self, value: bool) -> (record: Self)
        ensures
            record.bits() == with_flag(self.bits() as u64, 2, value),
            record@ == (ModemCtrlFlagsFields { out1: value, ..self@ }),
    {
        proof {
            lemma_flag_bits(value);
            lemma_modem_ctrl_store(self.0 as u64, 2, 1, flag_bits(value));
            lemma_with_field_in_byte(self.0 as u64, 2, 1, flag_bits(value));
        }
        Self(set_flag(self.0 as u64, 2, value) as u8)
    }

    /// The second auxiliary output, which lets interrupts through.
    pub fn irq_enable(&self) -> (value: bool)
        ensures
            value == self@.irq_enable,
    {
        get_flag(self.0 as u64, 3)
    }

    /// The same modem-control word with `irq_enable` replaced by `value`.
    pub fn with_irq_enable(self, value: bool) -> (record: Self)
        ensures
            record.bits() == with_flag(self.bits() as u64, 3, value),
            record@ == (ModemCtrlFlagsFields { irq_enable: value, ..self@ }),
    {
        proof {
            lemma_flag_bits(value);
            lemma_modem_ctrl_store(self.0 as u64, 3, 1, flag_bits(value));
            lemma_with_field_in_byte(self.0 as u64, 3, 1, flag_bits(value));
        }
        Self(set_flag(self.0 as u64, 3, value) as u8)
    }

    /// Whether what is sent is received back and nothing leaves the UART.
    pub fn loopback(&self) -> (value: bool)
        ensures
            value == self@.loopback,
    {
        get_flag(self.0 as u64, 4)
    }

    /// The same modem-control word with `loopback` replaced by `value`.
    pub fn with_loopback(self, value: bool) -> (record: Self)
        ensures
            record.bits() == with_flag(self.bits() as u64, 4, value),
            record@ == (ModemCtrlFlagsFields { loopback: value, ..self@ }),
    {
        proof {
            lemma_flag_bits(value);
            lemma_modem_ctrl_store(self.0 as u64, 4, 1, flag_bits(value));
            lemma_with_field_in_byte(self.0 as u64, 4, 1, flag_bits(value));
        }
        Self(set_flag(self.0 as u64, 4, value) as u8)
    }
}

/// Low byte of the divisor of the baud rate: 38400 baud.
pub const BAUD_DIVISOR_LOW: u8 = 3;

/// High byte of the divisor of the baud rate.
pub const BAUD_DIVISOR_HIGH: u8 = 0;

/// The byte that is sent in loopback mode to test the port.
pub const LOOPBACK_TEST_BYTE: u8 = 0xEE;

/// Interrupt enable: no interrupt.
pub const INT_ENABLE_NONE: u8 = 0x00;

/// Line control: access to the baud-rate divisor.
pub const LINE_CTRL_DIVISOR_LATCH: u8 = 0x80;

/// Line control: eight data bits, one stop bit, no parity.
pub const LINE_CTRL_8N1: u8 = 0x03;

/// FIFO control: FIFOs in use and emptied, interrupt at fourteen bytes.
pub const FIFO_CTRL_RESET: u8 = 0xC7;

/// Modem control: both lines ready, interrupts let through.
pub const MODEM_CTRL_READY: u8 = 0x0B;

/// Modem control: loopback mode.
pub const MODEM_CTRL_LOOPBACK: u8 = 0x1E;

/// Modem control: normal operation, both lines ready and both auxiliary
/// outputs set.
pub const MODEM_CTRL_NORMAL: u8 = 0x0F;

/// Number of the highest register of a serial port, counted from its base.
pub const LAST_REGISTER: u16 = 7;

/// Whether all eight registers of a serial port at `base` have a port number.
pub open spec fn addressable(base: u16) -> bool {
    base + LAST_REGISTER <= 0xFFFF
}

/// The write of `value` to the register `offset` of the serial port at `base`.
pub open spec fn register_write(base: u16, offset: u16, value: u8) -> PortOp {
    PortOp::WriteByte { port: (base + offset) as u16, value }
}

/// The accesses that initialise the serial port at `base`, up to the read of
/// the test byte: no interrupts; divisor latch open; divisor, low byte then
/// high byte; eight data bits, one stop bit, no parity; FIFOs reset; lines
/// ready; loopback mode; the test byte sent; the test byte read.
pub open spec fn init_sequence(base: u16) -> Seq<PortOp> {
    seq![
        register_write(base, 1, INT_ENABLE_NONE),
        register_write(base, 3, LINE_CTRL_DIVISOR_LATCH),
        register_write(base, 0, BAUD_DIVISOR_LOW),
        register_write(base, 1, BAUD_DIVISOR_HIGH),
        register_write(base, 3, LINE_CTRL_8N1),
        register_write(base, 2, FIFO_CTRL_RESET),
        register_write(base, 4, MODEM_CTRL_READY),
        register_write(base, 4, MODEM_CTRL_LOOPBACK),
        register_write(base, 0, LOOPBACK_TEST_BYTE),
        PortOp::ReadByte { port: base },
    ]
}

/// The words that the builders give for the register values of the
/// initialisation.
proof fn lemma_init_words()
    by (bit_vector)
    ensures
        with_field(with_field(with_field(with_field(0, 0, 1, 0), 1, 1, 0), 2, 1, 0), 3, 1, 0)
            == 0x00u64,
        with_field(0, 7, 1, 1) == 0x80u64,
        with_field(with_field(with_field(with_field(0, 7, 1, 0), 3, 3, 0), 2, 1, 0), 0, 2, 3)
            == 0x03u64,
        with_field(with_field(with_field(with_field(0, 0, 1, 1), 1, 1, 1), 2, 1, 1), 6, 2, 3)
            == 0xC7u64,
        with_field(with_field(with_field(0, 0, 1, 1), 1, 1, 1), 3, 1, 1) == 0x0Bu64,
        with_field(with_field(with_field(with_field(0, 1, 1, 1), 3, 1, 1), 2, 1, 1), 4, 1, 1)
            == 0x1Eu64,
        with_field(
            with_field(with_field(with_field(with_field(0, 0, 1, 1), 1, 1, 1), 2, 1, 1), 3, 1, 1),
            4,
            1,
            0,
        ) == 0x0Fu64,
{
}

/// The fields of the register values of the initialisation, bit by bit.
proof fn lemma_init_word_bits()
    by (bit_vector)
    ensures
        field(0x00, 0, 1) == 0u64,
        field(0x00, 1, 1) == 0u64,
        field(0x00, 2, 1) == 0u64,
        field(0x00, 3, 1) == 0u64,
        field(0x00, 4, 4) == 0u64,
        field(0x80, 0, 2) == 0u64,
        field(0x80, 2, 1) == 0u64,
        field(0x80, 3, 3) == 0u64,
        field(0x80, 6, 1) == 0u64,
        field(0x80, 7, 1) == 1u64,
        field(0x03, 0, 2) == 3u64,
        field(0x03, 2, 1) == 0u64,
        field(0x03, 3, 3) == 0u64,
        field(0x03, 6, 1) == 0u64,
        field(0x03, 7, 1) == 0u64,
        field(0xC7, 0, 1) == 1u64,
        field(0xC7, 1, 1) == 1u64,
        field(0xC7, 2, 1) == 1u64,
        field(0xC7, 3, 1) == 0u64,
        field(0xC7, 4, 2) == 0u64,
        field(0xC7, 6, 2) == 3u64,
        field(0x0B, 0, 1) == 1u64,
        field(0x0B, 1, 1) == 1u64,
        field(0x0B, 2, 1) == 0u64,
        field(0x0B, 3, 1) == 1u64,
        field(0x0B, 4, 1) == 0u64,
        field(0x0B, 5, 3) == 0u64,
        field(0x1E, 0, 1) == 0u64,
        field(0x1E, 1, 1) == 1u64,
        field(0x1E, 2, 1) == 1u64,
        field(0x1E, 3, 1) == 1u64,
        field(0x1E, 4, 1) == 1u64,
        field(0x1E, 5, 3) == 0u64,
        field(0x0F, 0, 1) == 1u64,
        field(0x0F, 1, 1) == 1u64,
        field(0x0F, 2, 1) == 1u64,
        field(0x0F, 3, 1) == 1u64,
        field(0x0F, 4, 1) == 0u64,
        field(0x0F, 5, 3) == 0u64,
{
}

/// What the register values of the initialisation mean: which fields each of
/// them sets.
pub proof fn lemma_init_words_mean()
    ensures
        int_enable_fields(INT_ENABLE_NONE as u64) == int_enable_zero(),
        line_ctrl_fields(LINE_CTRL_DIVISOR_LATCH as u64) == (LineCtrlFlagsFields {
            dlab: true,
            ..line_ctrl_zero()
        }),
        line_ctrl_fields(LINE_CTRL_8N1 as u64) == (LineCtrlFlagsFields {
            data_bits: 3,
            ..line_ctrl_zero()
        }),
        fifo_ctrl_fields(FIFO_CTRL_RESET as u64) == (FifoCtrlFlagsFields {
            enable: true,
            clear_rx: true,
            clear_tx: true,
            interrupt_trigger_level: 3,
            ..fifo_ctrl_zero()
        }),
        modem_ctrl_fields(MODEM_CTRL_READY as u64) == (ModemCtrlFlagsFields {
            dtr: true,
            rts: true,
            irq_enable: true,
            ..modem_ctrl_zero()
        }),
        modem_ctrl_fields(MODEM_CTRL_LOOPBACK as u64) == (ModemCtrlFlagsFields {
            rts: true,
            out1: true,
            irq_enable: true,
            loopback: true,
            ..modem_ctrl_zero()
        }),
        modem_ctrl_fields(MODEM_CTRL_NORMAL as u64) == (ModemCtrlFlagsFields {
            dtr: true,
            rts: true,
            out1: true,
            irq_enable: true,
            ..modem_ctrl_zero()
        }),
{
    lemma_init_word_bits();
}

/// The serial port whose registers start at port `BASE`.
#[derive(Clone, Copy, Debug)]
pub struct Com<const BASE: u16> {}

impl<const BASE: u16> Com<BASE> {
    /// Offset of the receive buffer.
    pub const RX_OFFSET: u16 = 0;

    /// Offset of the transmit buffer.
    pub const TX_OFFSET: u16 = 0;

    /// Offset of the low byte of the baud-rate divisor.
    pub const DIV_LSB_OFFSET: u16 = 0;

    /// Offset of the interrupt-enable register.
    pub const INT_ENABLE_OFFSET: u16 = 1;

    /// Offset of the high byte of the baud-rate divisor.
    pub const DIV_MSB_OFFSET: u16 = 1;

    /// Offset of the interrupt-identification register.
    pub const INT_ID_OFFSET: u16 = 2;

    /// Offset of the FIFO-control register.
    pub const FIFO_CTRL_OFFSET: u16 = 2;

    /// Offset of the line-control register.
    pub const LINE_CTRL_OFFSET: u16 = 3;

    /// Offset of the modem-control register.
    pub const MODEM_CTRL_OFFSET: u16 = 4;

    /// Offset of the line-status register.
    pub const LINE_STATUS_OFFSET: u16 = 5;

    /// Offset of the modem-status register.
    pub const MODEM_STATUS_OFFSET: u16 = 6;

    /// Offset of the scratch register.
    pub const SCRATCH_OFFSET: u16 = 7;

    /// The receive buffer.
    pub fn rx() -> (port: PortRO)
        requires
            addressable(BASE),
        ensures
            port.number() == BASE + 0,
    {
        PortRO::new(BASE + Self::RX_OFFSET)
    }

    /// The transmit buffer.
    pub fn tx() -> (port: PortWO)
        requires
            addressable(BASE),
        ensures
            port.number() == BASE + 0,
    {
        PortWO::new(BASE + Self::TX_OFFSET)
    }

    /// The low byte of the baud-rate divisor, while the divisor latch is open.
    pub fn div_lsb() -> (port: PortRW)
        requires
            addressable(BASE),
        ensures
            port.number() == BASE + 0,
    {
        PortRW::new(BASE + Self::DIV_LSB_OFFSET)
    }

    /// The interrupt-enable register.
    pub fn int_enable() -> (register: IntEnableReg)
        requires
            addressable(BASE),
        ensures
            register.number() == BASE + 1,
    {
        IntEnableReg(PortRW::new(BASE + Self::INT_ENABLE_OFFSET))
    }

    /// The high byte of the baud-rate divisor, while the divisor latch is
    /// open.
    pub fn div_msb() -> (port: PortRW)
        requires
            addressable(BASE),
        ensures
            port.number() == BASE + 1,
    {
        PortRW::new(BASE + Self::DIV_MSB_OFFSET)
    }

    /// The interrupt-identification register.
    pub fn int_id() -> (port: PortRO)
        requires
            addressable(BASE),
        ensures
            port.number() == BASE + 2,
    {
        PortRO::new(BASE + Self::INT_ID_OFFSET)
    }

    /// The FIFO-control register.
    pub fn fifo_ctrl() -> (register: FifoCtrlReg)
        requires
            addressable(BASE),
        ensures
            register.number() == BASE + 2,
    {
        FifoCtrlReg(PortWO::new(BASE + Self::FIFO_CTRL_OFFSET))
    }

    /// The line-control register.
    pub fn line_ctrl() -> (register: LineCtrlReg)
        requires
            addressable(BASE),
        ensures
            register.number() == BASE + 3,
    {
        LineCtrlReg(PortRW::new(BASE + Self::LINE_CTRL_OFFSET))
    }

    /// The modem-control register.
    pub fn modem_ctrl() -> (register: ModemCtrlReg)
        requires
            addressable(BASE),
        ensures
            register.number() == BASE + 4,
    {
        ModemCtrlReg(PortRW::new(BASE + Self::MODEM_CTRL_OFFSET))
    }

    /// The line-status register.
    pub fn line_status() -> (port: PortRO)
        requires
            addressable(BASE),
        ensures
            port.number() == BASE + 5,
    {
        PortRO::new(BASE + Self::LINE_STATUS_OFFSET)
    }

    /// The modem-status register.
    pub fn modem_status() -> (port: PortRO)
        requires
            addressable(BASE),
        ensures
            port.number() == BASE + 6,
    {
        PortRO::new(BASE + Self::MODEM_STATUS_OFFSET)
    }

    /// The scratch register.
    pub fn scratch() -> (port: PortRW)
        requires
            addressable(BASE),
        ensures
            port.number() == BASE + 7,
    {
        PortRW::new(BASE + Self::SCRATCH_OFFSET)
    }

    /// The serial port at `BASE`. Nothing checks that a UART answers there.
    pub fn new() -> Self {
        Self {}
    }

    /// The accesses that configure the port and test it in loopback mode,
    /// in the order in which they are to be performed. The last one reads the
    /// test byte back; what it reads goes to [`Com::finish_init`].
    pub fn init(&self) -> (ops: Vec<PortOp>)
        requires
            addressable(BASE),
        ensures
            ops@ == init_sequence(BASE),
    {
        proof {
            lemma_init_words();
            lemma_int_enable_zero();
        }
        let mut ops: Vec<PortOp> = Vec::new();
        ops.push(
            Self::int_enable().write(
                IntEnableFlags::new().with_rx_available(false).with_tx_empty(
                    false,
                ).with_rx_line_status(false).with_modem_status(false),
            ),
        );
        ops.push(Self::line_ctrl().write(LineCtrlFlags::new().with_dlab(true)));
        ops.push(Self::div_lsb().write_byte(BAUD_DIVISOR_LOW));
        ops.push(Self::div_msb().write_byte(BAUD_DIVISOR_HIGH));
        ops.push(
            Self::line_ctrl().write(
                LineCtrlFlags::new().with_dlab(false).with_parity_bits(0).with_stop_bits(
                    false,
                ).with_data_bits(3),
            ),
        );
        ops.push(
            Self::fifo_ctrl().write(
                FifoCtrlFlags::new().with_enable(true).with_clear_rx(true).with_clear_tx(
                    true,
                ).with_interrupt_trigger_level(3),
            ),
        );
        ops.push(
            Self::modem_ctrl().write(
                ModemCtrlFlags::new().with_dtr(true).with_rts(true).with_irq_enable(true),
            ),
        );
        ops.push(
            Self::modem_ctrl().write(
                ModemCtrlFlags::new().with_rts(true).with_irq_enable(true).with_out1(
                    true,
                ).with_loopback(true),
            ),
        );
        ops.push(Self::tx().write_byte(LOOPBACK_TEST_BYTE));
        ops.push(Self::rx().read_byte());
        assert(ops@ =~= init_sequence(BASE));
        ops
    }

    /// What follows from `echo`, the byte that the last access of
    /// [`Com::init`] read. Where it is the test byte, the port works, and the
    /// write that is returned ends loopback mode and leaves the port ready.
    /// Where it is any other byte, the hardware is faulty and nothing more is
    /// written.
    pub fn finish_init(&self, echo: u8) -> (outcome: Result<PortOp, ComInitError>)
        requires
            addressable(BASE),
        ensures
            echo == LOOPBACK_TEST_BYTE ==> outcome == Ok::<PortOp, ComInitError>(
                register_write(BASE, 4, MODEM_CTRL_NORMAL),
            ),
            echo != LOOPBACK_TEST_BYTE ==> outcome == Err::<PortOp, ComInitError>(
                ComInitError::FaultyHardware,
            ),
    {
        if echo != LOOPBACK_TEST_BYTE {
            return Err(ComInitError::FaultyHardware);
        }
        proof {
            lemma_init_words();
        }
        Ok(
            Self::modem_ctrl().write(
                ModemCtrlFlags::new().with_dtr(true).with_rts(true).with_out1(
                    true,
                ).with_irq_enable(true).with_loopback(false),
            ),
        )
    }

    /// The write that sends the byte `c`. It does not wait for room in the
    /// transmit buffer.
    pub fn putc(&self, c: u8) -> (op: PortOp)
        requires
            addressable(BASE),
        ensures
            op == (PortOp::WriteByte { port: BASE, value: c }),
    {
        Self::tx().write_byte(c)
    }

    /// The read that takes a byte from the receive buffer. It does not wait
    /// for a byte to arrive.
    pub fn getc(&self) -> (op: PortOp)
        requires
            addressable(BASE),
        ensures
            op == (PortOp::ReadByte { port: BASE }),
    {
        Self::rx().read_byte()
    }
}

/// The first serial port.
pub type COM1 = Com<COM1_PORT_BASE>;

/// The second serial port.
pub type COM2 = Com<COM2_PORT_BASE>;

/// The first serial port.
pub fn com1() -> COM1 {
    Com::new()
}

/// The second serial port.
pub fn com2() -> COM2 {
    Com::new()
}

} // verus!
