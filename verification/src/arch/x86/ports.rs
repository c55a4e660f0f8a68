//! Ports of the processor's I/O space, typed by what may be done through them.
//!
//! A port is a 16-bit number. A handle to a port is read-only, write-only or
//! read-write, and only a handle that may read gives read accesses, only one
//! that may write gives write accesses: a read through a write-only handle
//! does not compile. A handle performs nothing by itself. It gives the access
//! as a [`PortOp`], and the caller hands that to the processor, one `in` or
//! `out` instruction for each, in the order in which a driver gave them.

use vstd::prelude::*;

verus! {

/// One access to the I/O space: a single `in` or `out` instruction.
#[allow(inconsistent_fields)]
#[derive(Clone, Copy, Debug, PartialEq, Eq)]
pub enum PortOp {
    /// Read one byte from `port`.
    ReadByte { port: u16 },
    /// Read a 16-bit word from `port`.
    ReadWord { port: u16 },
    /// Read a 32-bit word from `port`.
    ReadDword { port: u16 },
    /// Write the byte `value` to `port`.
    WriteByte { port: u16, value: u8 },
    /// Write the 16-bit word `value` to `port`.
    WriteWord { port: u16, value: u16 },
    /// Write the 32-bit word `value` to `port`.
    WriteDword { port: u16, value: u32 },
}

/// A handle to a port.
pub trait PortTrait {
    /// The number of the port.
    spec fn number(&self) -> u16;

    /// The number of the port.
    fn get(&self) -> (port: u16)
        ensures
            port == self.number(),
    ;
}

/// A port without a capability: only its number.
#[derive(Copy, Clone)]
pub struct Port(u16);

impl PortTrait for Port {
    closed spec fn number(&self) -> u16 {
        self.0
    }

    fn get(&self) -> (port: u16) {
        self.0
    }
}

impl Port {
    /// The port with number `port`.
    pub fn new(port: u16) -> (handle: Self)
        ensures
            handle.number() == port,
    {
        Self(port)
    }
}

/// A handle that may read from its port.
pub trait PortRead: PortTrait {
    /// The read of one byte from the port.
    fn read_byte(&self) -> (op: PortOp)
        ensures
            op == (PortOp::ReadByte { port: self.number() }),
    {
        PortOp::ReadByte { port: self.get() }
    }

    /// The read of a 16-bit word from the port.
    fn read_word(&self) -> (op: PortOp)
        ensures
            op == (PortOp::ReadWord { port: self.number() }),
    {
        PortOp::ReadWord { port: self.get() }
    }

    /// The read of a 32-bit word from the port.
    fn read_dword(&self) -> (op: PortOp)
        ensures
            op == (PortOp::ReadDword { port: self.number() }),
    {
        PortOp::ReadDword { port: self.get() }
    }
}

/// A handle that may write to its port.
pub trait PortWrite: PortTrait {
    /// The write of the byte `b` to the port.
    fn write_byte(&self, b: u8) -> (op: PortOp)
        ensures
            op == (PortOp::WriteByte { port: self.number(), value: b }),
    {
        PortOp::WriteByte { port: self.get(), value: b }
    }

    /// The write of the 16-bit word `w` to the port.
    fn write_word(&self, w: u16) -> (op: PortOp)
        ensures
            op == (PortOp::WriteWord { port: self.number(), value: w }),
    {
        PortOp::WriteWord { port: self.get(), value: w }
    }

    /// The write of the 32-bit word `d` to the port.
    fn write_dword(&self, d: u32) -> (op: PortOp)
        ensures
            op == (PortOp::WriteDword { port: self.number(), value: d }),
    {
        PortOp::WriteDword { port: self.get(), value: d }
    }
}

/// A read-only handle to a port.
pub struct PortRO(Port);

impl PortTrait for PortRO {
    closed spec fn number(&self) -> u16 {
        self.0.number()
    }

    fn get(&self) -> (port: u16) {
        self.0.get()
    }
}

impl PortRead for PortRO {

}

impl PortRO {
    /// The read-only handle to the port with number `port`.
    pub fn new(port: u16) -> (handle: Self)
        ensures
            handle.number() == port,
    {
        Self(Port::new(port))
    }
}

/// A write-only handle to a port.
pub struct PortWO(Port);

impl PortTrait for PortWO {
    closed spec fn number(&self) -> u16 {
        self.0.number()
    }

    fn get(&self) -> (port: u16) {
        self.0.get()
    }
}

impl PortWrite for PortWO {

}

impl PortWO {
    /// The write-only handle to the port with number `port`.
    pub fn new(port: u16) -> (handle: Self)
        ensures
            handle.number() == port,
    {
        Self(Port::new(port))
    }
}

/// A read-write handle to a port.
pub struct PortRW(Port);

impl PortTrait for PortRW {
    closed spec fn number(&self) -> u16 {
        self.0.number()
    }

    fn get(&self) -> (port: u16) {
        self.0.get()
    }
}

impl PortRead for PortRW {

}

impl PortWrite for PortRW {

}

impl PortRW {
    /// The read-write handle to the port with number `port`.
    pub fn new(port: u16) -> (handle: Self)
        ensures
            handle.number() == port,
    {
        Self(Port::new(port))
    }
}

} // verus!
