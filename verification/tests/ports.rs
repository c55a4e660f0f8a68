use earlyboot::arch::x86::ports::{
    Port, PortOp, PortRO, PortRW, PortRead, PortTrait, PortWO, PortWrite,
};

#[test]
fn a_handle_keeps_its_port_number() {
    assert_eq!(Port::new(0x60).get(), 0x60);
    assert_eq!(PortRO::new(0x3F8).get(), 0x3F8);
    assert_eq!(PortWO::new(0x3F9).get(), 0x3F9);
    assert_eq!(PortRW::new(0xFFFF).get(), 0xFFFF);
}

#[test]
fn a_read_only_handle_gives_reads() {
    let port = PortRO::new(0x3FD);
    assert_eq!(port.read_byte(), PortOp::ReadByte { port: 0x3FD });
    assert_eq!(port.read_word(), PortOp::ReadWord { port: 0x3FD });
    assert_eq!(port.read_dword(), PortOp::ReadDword { port: 0x3FD });
}

#[test]
fn a_write_only_handle_gives_writes() {
    let port = PortWO::new(0x80);
    assert_eq!(port.write_byte(0x12), PortOp::WriteByte { port: 0x80, value: 0x12 });
    assert_eq!(port.write_word(0x1234), PortOp::WriteWord { port: 0x80, value: 0x1234 });
    assert_eq!(
        port.write_dword(0x1234_5678),
        PortOp::WriteDword { port: 0x80, value: 0x1234_5678 }
    );
}

#[test]
fn a_read_write_handle_gives_both() {
    let port = PortRW::new(0x3D5);
    assert_eq!(port.read_byte(), PortOp::ReadByte { port: 0x3D5 });
    assert_eq!(port.write_byte(7), PortOp::WriteByte { port: 0x3D5, value: 7 });
}
