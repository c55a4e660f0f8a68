use earlyboot::arch::x86::ports::{PortOp, PortRead, PortTrait, PortWrite};
use earlyboot::arch::x86::serial::{
    com1, com2, Com, ComInitError, FifoCtrlFlags, IntEnableFlags, LineCtrlFlags, ModemCtrlFlags,
};

/// A UART that answers at `base`. In loopback mode it hands back what is
/// sent, or, where it is faulty, something else.
struct Uart {
    base: u16,
    faulty: bool,
    modem_ctrl: u8,
    received: u8,
    writes: Vec<(u16, u8)>,
}

impl Uart {
    fn new(base: u16, faulty: bool) -> Self {
        Uart { base, faulty, modem_ctrl: 0, received: 0, writes: Vec::new() }
    }

    fn perform(&mut self, op: PortOp) -> u8 {
        match op {
            PortOp::WriteByte { port, value } => {
                self.writes.push((port - self.base, value));
                if port == self.base + 4 {
                    self.modem_ctrl = value;
                }
                if port == self.base && self.modem_ctrl & 0x10 != 0 {
                    self.received = if self.faulty { !value } else { value };
                }
                0
            }
            PortOp::ReadByte { port } => {
                assert_eq!(port, self.base);
                self.received
            }
            other => panic!("unexpected access {:?}", other),
        }
    }

    fn init<const BASE: u16>(&mut self, com: &Com<BASE>) -> Result<(), ComInitError> {
        let mut last = 0;
        for op in com.init() {
            last = self.perform(op);
        }
        let op = com.finish_init(last)?;
        self.perform(op);
        Ok(())
    }
}

const CONFIGURATION: [(u16, u8); 9] = [
    (1, 0x00),
    (3, 0x80),
    (0, 0x03),
    (1, 0x00),
    (3, 0x03),
    (2, 0xC7),
    (4, 0x0B),
    (4, 0x1E),
    (0, 0xEE),
];

#[test]
fn init_gives_the_documented_accesses() {
    let ops = com1().init();
    let mut expected: Vec<PortOp> = CONFIGURATION
        .iter()
        .map(|&(offset, value)| PortOp::WriteByte { port: 0x3F8 + offset, value })
        .collect();
    expected.push(PortOp::ReadByte { port: 0x3F8 });
    assert_eq!(ops, expected);
}

#[test]
fn init_of_the_second_port_goes_to_its_base() {
    let ops = com2().init();
    assert_eq!(ops.len(), 10);
    assert_eq!(ops[0], PortOp::WriteByte { port: 0x2F9, value: 0x00 });
    assert_eq!(ops[7], PortOp::WriteByte { port: 0x2FC, value: 0x1E });
    assert_eq!(ops[9], PortOp::ReadByte { port: 0x2F8 });
}

#[test]
fn init_succeeds_on_a_working_uart() {
    let mut uart = Uart::new(0x3F8, false);
    assert_eq!(uart.init(&com1()), Ok(()));
    let mut expected = CONFIGURATION.to_vec();
    expected.push((4, 0x0F));
    assert_eq!(uart.writes, expected);
    assert_eq!(uart.modem_ctrl & 0x10, 0);
}

#[test]
fn init_reports_faulty_hardware_and_writes_nothing_more() {
    let mut uart = Uart::new(0x3F8, true);
    assert_eq!(uart.init(&com1()), Err(ComInitError::FaultyHardware));
    assert_eq!(uart.writes, CONFIGURATION.to_vec());
}

#[test]
fn only_the_test_byte_passes_the_loopback_test() {
    let com = com1();
    for echo in 0..=255u8 {
        let outcome = com.finish_init(echo);
        if echo == 0xEE {
            assert_eq!(outcome, Ok(PortOp::WriteByte { port: 0x3FC, value: 0x0F }));
        } else {
            assert_eq!(outcome, Err(ComInitError::FaultyHardware));
        }
    }
}

#[test]
fn putc_and_getc_are_one_access_each() {
    assert_eq!(com1().putc(b'A'), PortOp::WriteByte { port: 0x3F8, value: b'A' });
    assert_eq!(com1().getc(), PortOp::ReadByte { port: 0x3F8 });
    assert_eq!(com2().putc(0), PortOp::WriteByte { port: 0x2F8, value: 0 });
    assert_eq!(Com::<0x3E8>::new().getc(), PortOp::ReadByte { port: 0x3E8 });
}

#[test]
fn registers_lie_at_their_offsets() {
    assert_eq!(Com::<0x3F8>::rx().read_byte(), PortOp::ReadByte { port: 0x3F8 });
    assert_eq!(Com::<0x3F8>::tx().write_byte(1), PortOp::WriteByte { port: 0x3F8, value: 1 });
    assert_eq!(Com::<0x3F8>::div_lsb().get(), 0x3F8);
    assert_eq!(Com::<0x3F8>::div_msb().get(), 0x3F9);
    assert_eq!(Com::<0x3F8>::int_id().get(), 0x3FA);
    assert_eq!(Com::<0x3F8>::line_status().get(), 0x3FD);
    assert_eq!(Com::<0x3F8>::modem_status().get(), 0x3FE);
    assert_eq!(Com::<0x3F8>::scratch().get(), 0x3FF);
    assert_eq!(
        Com::<0x3F8>::int_enable().write(IntEnableFlags::from_bits(5)),
        PortOp::WriteByte { port: 0x3F9, value: 5 }
    );
    assert_eq!(Com::<0x3F8>::int_enable().read(), PortOp::ReadByte { port: 0x3F9 });
    assert_eq!(
        Com::<0x3F8>::fifo_ctrl().write(FifoCtrlFlags::from_bits(1)),
        PortOp::WriteByte { port: 0x3FA, value: 1 }
    );
    assert_eq!(Com::<0x3F8>::line_ctrl().read(), PortOp::ReadByte { port: 0x3FB });
    assert_eq!(Com::<0x3F8>::modem_ctrl().read(), PortOp::ReadByte { port: 0x3FC });
}

#[test]
fn register_words_hold_their_fields() {
    assert_eq!(IntEnableFlags::new().into_bits(), 0);
    assert_eq!(
        IntEnableFlags::new()
            .with_rx_available(true)
            .with_tx_empty(true)
            .with_rx_line_status(true)
            .with_modem_status(true)
            .into_bits(),
        0x0F
    );
    assert_eq!(LineCtrlFlags::new().with_dlab(true).into_bits(), 0x80);
    assert_eq!(LineCtrlFlags::new().with_data_bits(3).into_bits(), 0x03);
    assert_eq!(LineCtrlFlags::new().with_stop_bits(true).into_bits(), 0x04);
    assert_eq!(LineCtrlFlags::new().with_parity_bits(7).into_bits(), 0x38);
    assert_eq!(LineCtrlFlags::new().with_break_enable(true).into_bits(), 0x40);
    assert_eq!(FifoCtrlFlags::new().with_interrupt_trigger_level(3).into_bits(), 0xC0);
    assert_eq!(FifoCtrlFlags::new().with_dma_mode_select(true).into_bits(), 0x08);
    assert_eq!(ModemCtrlFlags::new().with_loopback(true).into_bits(), 0x10);
    assert_eq!(ModemCtrlFlags::new().with_out1(true).into_bits(), 0x04);
    assert_eq!(ModemCtrlFlags::new().with_irq_enable(true).into_bits(), 0x08);
}

#[test]
fn register_words_read_back_their_fields() {
    let line = LineCtrlFlags::from_bits(0b1010_1110);
    assert_eq!(line.data_bits(), 2);
    assert!(line.stop_bits());
    assert_eq!(line.parity_bits(), 5);
    assert!(!line.break_enable());
    assert!(line.dlab());
    let modem = ModemCtrlFlags::from_bits(0x1E);
    assert!(!modem.dtr());
    assert!(modem.rts());
    assert!(modem.out1());
    assert!(modem.irq_enable());
    assert!(modem.loopback());
    assert_eq!(modem.with_loopback(false).with_dtr(true).into_bits(), 0x0F);
}
