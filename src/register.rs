//! Register catalog: descriptors of the control registers and PHY registers.
use vstd::prelude::*;

verus! {

/// One of the four register banks selected by the low two bits of ECON1.
#[derive(Clone, Copy, PartialEq, Eq, Structural, Debug)]
pub enum Bank {
    Bank0,
    Bank1,
    Bank2,
    Bank3,
}

impl Bank {
    /// The bank number, as programmed into ECON1.BSEL.
    pub open spec fn index(self) -> u8 {
        match self {
            Bank::Bank0 => 0,
            Bank::Bank1 => 1,
            Bank::Bank2 => 2,
            Bank::Bank3 => 3,
        }
    }

    /// The bank number, as programmed into ECON1.BSEL.
    pub fn number(self) -> (r: u8)
        ensures
            r == self.index(),
            r <= 3,
    {
        match self {
            Bank::Bank0 => 0,
            Bank::Bank1 => 1,
            Bank::Bank2 => 2,
            Bank::Bank3 => 3,
        }
    }
}

/// The block a control register belongs to.
#[derive(Clone, Copy, PartialEq, Eq, Structural, Debug)]
pub enum Block {
    Eth,
    Mac,
    Mii,
}

/// A control register: its address, its bank (none for the registers mirrored
/// in every bank) and its block.
#[derive(Clone, Copy, PartialEq, Eq, Structural, Debug)]
pub struct ControlRegister {
    pub addr: u8,
    pub bank: Option<Bank>,
    pub bloc: Block,
}

/// The SPI opcodes, held in the high three bits of a command's first byte.
#[derive(Clone, Copy, PartialEq, Eq, Structural, Debug)]
pub enum Op {
    /// Read Control Register.
    RCR,
    /// Read Buffer Memory.
    RBM,
    /// Write Control Register.
    WCR,
    /// Write Buffer Memory.
    WBM,
    /// Bit Field Set.
    BFS,
    /// Bit Field Clear.
    BFC,
}

impl Op {
    /// The three-bit opcode.
    pub open spec fn bits(self) -> u8 {
        match self {
            Op::RCR => 0,
            Op::RBM => 1,
            Op::WCR => 2,
            Op::WBM => 3,
            Op::BFS => 4,
            Op::BFC => 5,
        }
    }

    /// The opcode placed in the high three bits of a byte.
    pub fn code(self) -> (r: u8)
        ensures
            r as int == self.bits() * 32,
    {
        match self {
            Op::RCR => 0b000_00000,
            Op::RBM => 0b001_00000,
            Op::WCR => 0b010_00000,
            Op::WBM => 0b011_00000,
            Op::BFS => 0b100_00000,
            Op::BFC => 0b101_00000,
        }
    }
}

/// The five significant bits of an address byte.
pub open spec fn low5(a: u8) -> u8 {
    (a % 32) as u8
}

/// The first byte of a command: opcode in the high three bits, address in the
/// low five.
pub open spec fn command_byte(op: Op, addr: u8) -> u8 {
    (op.bits() * 32 + low5(addr)) as u8
}

impl ControlRegister {
    /// A register mirrored in every bank; all of them are ETH registers.
    pub fn global(addr: u8) -> (r: Self)
        ensures
            r == (ControlRegister { addr, bank: None, bloc: Block::Eth }),
    {
        ControlRegister { addr, bank: None, bloc: Block::Eth }
    }

    /// A register that is reached only while its bank is selected.
    pub fn banked(addr: u8, bank: Bank, bloc: Block) -> (r: Self)
        ensures
            r == (ControlRegister { addr, bank: Some(bank), bloc }),
    {
        ControlRegister { addr, bank: Some(bank), bloc }
    }

    /// The register's address, five bits wide.
    pub open spec fn spec_addr(self) -> u8 {
        low5(self.addr)
    }

    /// Whether a read of the register shifts out a dummy byte first.
    pub open spec fn spec_shifts_dummy_byte(self) -> bool {
        self.bloc == Block::Mac || self.bloc == Block::Mii
    }

    /// The address of the register. 5-bits wide.
    pub fn addr(&self) -> (r: u8)
        ensures
            r == self.spec_addr(),
            r < 32,
    {
        let a = self.addr;
        let r = a & 0b000_11111;
        assert(a & 0x1f == a % 32) by (bit_vector);
        r
    }

    /// Bank of the register; `None` for the global registers such as ESTAT.
    pub fn bank(&self) -> (r: Option<Bank>)
        ensures
            r == self.bank,
    {
        self.bank
    }

    /// The first byte of an SPI command on this register: a 3-bit opcode and
    /// the 5-bit address.
    pub fn opcode(&self, op: Op) -> (r: u8)
        ensures
            r == command_byte(op, self.addr),
            r as int == op.bits() * 32 + self.addr % 32,
    {
        let c = op.code();
        let a = self.addr();
        let r = c | a;
        assert(c % 32 == 0 && a < 32 ==> c | a == c + a) by (bit_vector);
        r
    }

    /// Whether a dummy byte is shifted out of the SO pin when reading the
    /// register (MAC and MII registers).
    pub fn shifts_dummy_byte(&self) -> (r: bool)
        ensures
            r == self.spec_shifts_dummy_byte(),
    {
        match self.bloc {
            Block::Eth => false,
            Block::Mac => true,
            Block::Mii => true,
        }
    }
}

/// A PHY register, reached indirectly through the MII registers.
#[derive(Clone, Copy, PartialEq, Eq, Structural, Debug)]
pub struct PhyRegister {
    pub addr: u8,
}

impl PhyRegister {
    /// A PHY register at the five low bits of `addr`.
    pub fn new(addr: u8) -> (r: Self)
        ensures
            r.addr == low5(addr),
    {
        assert(addr & 0x1f == addr % 32) by (bit_vector);
        PhyRegister { addr: addr & 0x1f }
    }

    /// The register's 5-bit address.
    pub fn addr(&self) -> (r: u8)
        ensures
            r == self.addr,
    {
        self.addr
    }
}

/// The bank with the given number.
pub open spec fn bank_of(n: u8) -> Bank {
    if n == 0 {
        Bank::Bank0
    } else if n == 1 {
        Bank::Bank1
    } else if n == 2 {
        Bank::Bank2
    } else {
        Bank::Bank3
    }
}

/// The bank with the given number, which must be below four.
pub fn bank_from_u8(bank: u8) -> (r: Bank)
    requires
        bank <= 3,
    ensures
        r == bank_of(bank),
        r.index() == bank,
{
    match bank {
        0 => Bank::Bank0,
        1 => Bank::Bank1,
        2 => Bank::Bank2,
        _ => Bank::Bank3,
    }
}

/// The named control registers of the device.
#[derive(Clone, Copy, PartialEq, Eq, Structural, Debug)]
pub enum Register {
    EIE,
    EIR,
    ESTAT,
    ECON2,
    ECON1,
    ERDPTL,
    ERDPTH,
    EWRPTL,
    EWRPTH,
    ETXSTL,
    ETXSTH,
    ETXNDL,
    ETXNDH,
    ERXSTL,
    ERXSTH,
    ERXNDL,
    ERXNDH,
    ERXRDPTL,
    ERXRDPTH,
    ERXWRPTL,
    ERXWRPTH,
    ERXFCON,
    EPKTCNT,
    MACON1,
    MACON3,
    MACON4,
    MABBIPG,
    MAIPGL,
    MAIPGH,
    MAMXFLL,
    MAMXFLH,
    MICMD,
    MIREGADR,
    MIWRL,
    MIWRH,
    MIRDL,
    MIRDH,
    MAADR5,
    MAADR6,
    MAADR3,
    MAADR4,
    MAADR1,
    MAADR2,
    MISTAT,
    EREVID,
}

impl Register {
    /// The descriptor of the named register.
    pub open spec fn spec_descriptor(self) -> ControlRegister {
        match self {
            Register::EIE => ControlRegister { addr: 0x1b, bank: None, bloc: Block::Eth },
            Register::EIR => ControlRegister { addr: 0x1c, bank: None, bloc: Block::Eth },
            Register::ESTAT => ControlRegister { addr: 0x1d, bank: None, bloc: Block::Eth },
            Register::ECON2 => ControlRegister { addr: 0x1e, bank: None, bloc: Block::Eth },
            Register::ECON1 => ControlRegister { addr: 0x1f, bank: None, bloc: Block::Eth },
            Register::ERDPTL => ControlRegister { addr: 0x00, bank: Some(Bank::Bank0), bloc: Block::Eth },
            Register::ERDPTH => ControlRegister { addr: 0x01, bank: Some(Bank::Bank0), bloc: Block::Eth },
            Register::EWRPTL => ControlRegister { addr: 0x02, bank: Some(Bank::Bank0), bloc: Block::Eth },
            Register::EWRPTH => ControlRegister { addr: 0x03, bank: Some(Bank::Bank0), bloc: Block::Eth },
            Register::ETXSTL => ControlRegister { addr: 0x04, bank: Some(Bank::Bank0), bloc: Block::Eth },
            Register::ETXSTH => ControlRegister { addr: 0x05, bank: Some(Bank::Bank0), bloc: Block::Eth },
            Register::ETXNDL => ControlRegister { addr: 0x06, bank: Some(Bank::Bank0), bloc: Block::Eth },
            Register::ETXNDH => ControlRegister { addr: 0x07, bank: Some(Bank::Bank0), bloc: Block::Eth },
            Register::ERXSTL => ControlRegister { addr: 0x08, bank: Some(Bank::Bank0), bloc: Block::Eth },
            Register::ERXSTH => ControlRegister { addr: 0x09, bank: Some(Bank::Bank0), bloc: Block::Eth },
            Register::ERXNDL => ControlRegister { addr: 0x0a, bank: Some(Bank::Bank0), bloc: Block::Eth },
            Register::ERXNDH => ControlRegister { addr: 0x0b, bank: Some(Bank::Bank0), bloc: Block::Eth },
            Register::ERXRDPTL => ControlRegister { addr: 0x0c, bank: Some(Bank::Bank0), bloc: Block::Eth },
            Register::ERXRDPTH => ControlRegister { addr: 0x0d, bank: Some(Bank::Bank0), bloc: Block::Eth },
            Register::ERXWRPTL => ControlRegister { addr: 0x0e, bank: Some(Bank::Bank0), bloc: Block::Eth },
            Register::ERXWRPTH => ControlRegister { addr: 0x0f, bank: Some(Bank::Bank0), bloc: Block::Eth },
            Register::ERXFCON => ControlRegister { addr: 0x18, bank: Some(Bank::Bank1), bloc: Block::Eth },
            Register::EPKTCNT => ControlRegister { addr: 0x19, bank: Some(Bank::Bank1), bloc: Block::Eth },
            Register::MACON1 => ControlRegister { addr: 0x00, bank: Some(Bank::Bank2), bloc: Block::Mac },
            Register::MACON3 => ControlRegister { addr: 0x02, bank: Some(Bank::Bank2), bloc: Block::Mac },
            Register::MACON4 => ControlRegister { addr: 0x03, bank: Some(Bank::Bank2), bloc: Block::Mac },
            Register::MABBIPG => ControlRegister { addr: 0x04, bank: Some(Bank::Bank2), bloc: Block::Mac },
            Register::MAIPGL => ControlRegister { addr: 0x06, bank: Some(Bank::Bank2), bloc: Block::Mac },
            Register::MAIPGH => ControlRegister { addr: 0x07, bank: Some(Bank::Bank2), bloc: Block::Mac },
            Register::MAMXFLL => ControlRegister { addr: 0x0a, bank: Some(Bank::Bank2), bloc: Block::Mac },
            Register::MAMXFLH => ControlRegister { addr: 0x0b, bank: Some(Bank::Bank2), bloc: Block::Mac },
            Register::MICMD => ControlRegister { addr: 0x12, bank: Some(Bank::Bank2), bloc: Block::Mii },
            Register::MIREGADR => ControlRegister { addr: 0x14, bank: Some(Bank::Bank2), bloc: Block::Mii },
            Register::MIWRL => ControlRegister { addr: 0x16, bank: Some(Bank::Bank2), bloc: Block::Mii },
            Register::MIWRH => ControlRegister { addr: 0x17, bank: Some(Bank::Bank2), bloc: Block::Mii },
            Register::MIRDL => ControlRegister { addr: 0x18, bank: Some(Bank::Bank2), bloc: Block::Mii },
            Register::MIRDH => ControlRegister { addr: 0x19, bank: Some(Bank::Bank2), bloc: Block::Mii },
            Register::MAADR5 => ControlRegister { addr: 0x00, bank: Some(Bank::Bank3), bloc: Block::Mac },
            Register::MAADR6 => ControlRegister { addr: 0x01, bank: Some(Bank::Bank3), bloc: Block::Mac },
            Register::MAADR3 => ControlRegister { addr: 0x02, bank: Some(Bank::Bank3), bloc: Block::Mac },
            Register::MAADR4 => ControlRegister { addr: 0x03, bank: Some(Bank::Bank3), bloc: Block::Mac },
            Register::MAADR1 => ControlRegister { addr: 0x04, bank: Some(Bank::Bank3), bloc: Block::Mac },
            Register::MAADR2 => ControlRegister { addr: 0x05, bank: Some(Bank::Bank3), bloc: Block::Mac },
            Register::MISTAT => ControlRegister { addr: 0x0a, bank: Some(Bank::Bank3), bloc: Block::Mii },
            Register::EREVID => ControlRegister { addr: 0x12, bank: Some(Bank::Bank3), bloc: Block::Eth },
        }
    }

    /// The descriptor of the named register.
    #[verifier::when_used_as_spec(spec_descriptor)]
    pub fn descriptor(self) -> (r: ControlRegister)
        ensures
            r == self.spec_descriptor(),
    {
        match self {
            Register::EIE => ControlRegister { addr: 0x1b, bank: None, bloc: Block::Eth },
            Register::EIR => ControlRegister { addr: 0x1c, bank: None, bloc: Block::Eth },
            Register::ESTAT => ControlRegister { addr: 0x1d, bank: None, bloc: Block::Eth },
            Register::ECON2 => ControlRegister { addr: 0x1e, bank: None, bloc: Block::Eth },
            Register::ECON1 => ControlRegister { addr: 0x1f, bank: None, bloc: Block::Eth },
            Register::ERDPTL => ControlRegister { addr: 0x00, bank: Some(Bank::Bank0), bloc: Block::Eth },
            Register::ERDPTH => ControlRegister { addr: 0x01, bank: Some(Bank::Bank0), bloc: Block::Eth },
            Register::EWRPTL => ControlRegister { addr: 0x02, bank: Some(Bank::Bank0), bloc: Block::Eth },
            Register::EWRPTH => ControlRegister { addr: 0x03, bank: Some(Bank::Bank0), bloc: Block::Eth },
            Register::ETXSTL => ControlRegister { addr: 0x04, bank: Some(Bank::Bank0), bloc: Block::Eth },
            Register::ETXSTH => ControlRegister { addr: 0x05, bank: Some(Bank::Bank0), bloc: Block::Eth },
            Register::ETXNDL => ControlRegister { addr: 0x06, bank: Some(Bank::Bank0), bloc: Block::Eth },
            Register::ETXNDH => ControlRegister { addr: 0x07, bank: Some(Bank::Bank0), bloc: Block::Eth },
            Register::ERXSTL => ControlRegister { addr: 0x08, bank: Some(Bank::Bank0), bloc: Block::Eth },
            Register::ERXSTH => ControlRegister { addr: 0x09, bank: Some(Bank::Bank0), bloc: Block::Eth },
            Register::ERXNDL => ControlRegister { addr: 0x0a, bank: Some(Bank::Bank0), bloc: Block::Eth },
            Register::ERXNDH => ControlRegister { addr: 0x0b, bank: Some(Bank::Bank0), bloc: Block::Eth },
            Register::ERXRDPTL => ControlRegister { addr: 0x0c, bank: Some(Bank::Bank0), bloc: Block::Eth },
            Register::ERXRDPTH => ControlRegister { addr: 0x0d, bank: Some(Bank::Bank0), bloc: Block::Eth },
            Register::ERXWRPTL => ControlRegister { addr: 0x0e, bank: Some(Bank::Bank0), bloc: Block::Eth },
            Register::ERXWRPTH => ControlRegister { addr: 0x0f, bank: Some(Bank::Bank0), bloc: Block::Eth },
            Register::ERXFCON => ControlRegister { addr: 0x18, bank: Some(Bank::Bank1), bloc: Block::Eth },
            Register::EPKTCNT => ControlRegister { addr: 0x19, bank: Some(Bank::Bank1), bloc: Block::Eth },
            Register::MACON1 => ControlRegister { addr: 0x00, bank: Some(Bank::Bank2), bloc: Block::Mac },
            Register::MACON3 => ControlRegister { addr: 0x02, bank: Some(Bank::Bank2), bloc: Block::Mac },
            Register::MACON4 => ControlRegister { addr: 0x03, bank: Some(Bank::Bank2), bloc: Block::Mac },
            Register::MABBIPG => ControlRegister { addr: 0x04, bank: Some(Bank::Bank2), bloc: Block::Mac },
            Register::MAIPGL => ControlRegister { addr: 0x06, bank: Some(Bank::Bank2), bloc: Block::Mac },
            Register::MAIPGH => ControlRegister { addr: 0x07, bank: Some(Bank::Bank2), bloc: Block::Mac },
            Register::MAMXFLL => ControlRegister { addr: 0x0a, bank: Some(Bank::Bank2), bloc: Block::Mac },
            Register::MAMXFLH => ControlRegister { addr: 0x0b, bank: Some(Bank::Bank2), bloc: Block::Mac },
            Register::MICMD => ControlRegister { addr: 0x12, bank: Some(Bank::Bank2), bloc: Block::Mii },
            Register::MIREGADR => ControlRegister { addr: 0x14, bank: Some(Bank::Bank2), bloc: Block::Mii },
            Register::MIWRL => ControlRegister { addr: 0x16, bank: Some(Bank::Bank2), bloc: Block::Mii },
            Register::MIWRH => ControlRegister { addr: 0x17, bank: Some(Bank::Bank2), bloc: Block::Mii },
            Register::MIRDL => ControlRegister { addr: 0x18, bank: Some(Bank::Bank2), bloc: Block::Mii },
            Register::MIRDH => ControlRegister { addr: 0x19, bank: Some(Bank::Bank2), bloc: Block::Mii },
            Register::MAADR5 => ControlRegister { addr: 0x00, bank: Some(Bank::Bank3), bloc: Block::Mac },
            Register::MAADR6 => ControlRegister { addr: 0x01, bank: Some(Bank::Bank3), bloc: Block::Mac },
            Register::MAADR3 => ControlRegister { addr: 0x02, bank: Some(Bank::Bank3), bloc: Block::Mac },
            Register::MAADR4 => ControlRegister { addr: 0x03, bank: Some(Bank::Bank3), bloc: Block::Mac },
            Register::MAADR1 => ControlRegister { addr: 0x04, bank: Some(Bank::Bank3), bloc: Block::Mac },
            Register::MAADR2 => ControlRegister { addr: 0x05, bank: Some(Bank::Bank3), bloc: Block::Mac },
            Register::MISTAT => ControlRegister { addr: 0x0a, bank: Some(Bank::Bank3), bloc: Block::Mii },
            Register::EREVID => ControlRegister { addr: 0x12, bank: Some(Bank::Bank3), bloc: Block::Eth },
        }
    }
}

// Addresses of the PHY registers.
pub const PHCON1: u8 = 0x00;
pub const PHSTAT1: u8 = 0x01;
pub const PHID1: u8 = 0x02;
pub const PHID2: u8 = 0x03;
pub const PHCON2: u8 = 0x10;
pub const PHSTAT2: u8 = 0x11;
pub const PHIE: u8 = 0x12;
pub const PHIR: u8 = 0x13;
pub const PHLCON: u8 = 0x14;

} // verus!
