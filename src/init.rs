//! The initialization procedure: brings the device from reset into a state
//! where it receives frames.
use vstd::prelude::*;
use crate::command::{
    bfs, control_value, final_bank, program, set_access, wcr, write_access, Access, Command,
};
use crate::device::{write_phy_accesses, Enc28j60, Event, Step};
use crate::receive::{read_commands, read_value};
use crate::register::{Bank, PhyRegister, Register, PHCON1, PHCON2};

verus! {

/// Start of the transmit buffer; the receive ring fills the memory below it.
pub const TX_START: u16 = 0x1000;

/// Start of the receive ring.
pub const RX_START: u16 = 0x0000;

/// End of the receive ring, inclusive; odd, as ERXRDPT must stay.
pub const RX_END: u16 = 0x0fff;

/// Largest frame accepted, header and CRC included.
pub const MAX_FRAME_LENGTH: u16 = 1518;

/// How long the oscillator is given to settle after the soft reset, in
/// microseconds.
pub const SETTLE_MICROS: u32 = 1000;

/// ECON2.AUTOINC: the buffer pointers advance on each byte.
pub const AUTOINC_MASK: u8 = 0x80;

/// ESTAT.CLKRDY: the oscillator is running.
pub const CLKRDY_MASK: u8 = 0x01;

/// Where the initialization procedure stands.
#[derive(Clone, Copy, PartialEq, Eq, Structural, Debug)]
pub enum InitPhase {
    /// Nothing issued yet.
    Start,
    /// The System Reset Command is going out.
    Reset,
    /// The device is given time to settle.
    Settle,
    /// EREVID is being read.
    Revision,
    /// ESTAT is read until CLKRDY is set.
    Clock,
    /// The configuration is being written.
    Configure,
    /// The procedure is over.
    Done,
}

/// The initialization procedure.
#[derive(Clone, Copy, Debug)]
pub struct Initialize {
    pub phase: InitPhase,
}

/// Whether the CLKRDY wait is skipped for the revision read from EREVID: a
/// device still in reset or a silent bus (0x00, 0xFF), or a silicon revision
/// whose CLKRDY bit is unreliable.
pub open spec fn skips_clock_wait(revision: u8) -> bool {
    revision == 0x00 || revision == 0xff || revision == 0x02 || revision == 0x08
        || revision == 0x05 || revision == 0x06
}

/// The configuration written once the clock runs: auto-increment, the
/// buffer layout, the MAC, the station address, the receive filter, the PHY,
/// the interrupts, and last the enabling of reception.
pub open spec fn config_accesses() -> Seq<Access> {
    seq![
        bfs(Register::ECON2, AUTOINC_MASK),
        wcr(Register::ERXSTL, 0x00),
        wcr(Register::ERXSTH, 0x00),
        wcr(Register::ERXNDL, 0xff),
        wcr(Register::ERXNDH, 0x0f),
        wcr(Register::ERXRDPTL, 0x00),
        wcr(Register::ERXRDPTH, 0x00),
        wcr(Register::ETXSTL, 0x00),
        wcr(Register::ETXSTH, 0x10),
        wcr(Register::MACON1, 0x01),
        wcr(Register::MACON3, 0x33),
        wcr(Register::MAMXFLL, 0xee),
        wcr(Register::MAMXFLH, 0x05),
        wcr(Register::MABBIPG, 0x15),
        wcr(Register::MAIPGL, 0x06),
        wcr(Register::MAADR1, 0xff),
        wcr(Register::MAADR2, 0xca),
        wcr(Register::MAADR3, 0xde),
        wcr(Register::MAADR4, 0xee),
        wcr(Register::MAADR5, 0xff),
        wcr(Register::MAADR6, 0xc0),
        wcr(Register::ERXFCON, 0x00),
    ] + write_phy_accesses(PhyRegister { addr: PHCON1 }, 0x0100) + write_phy_accesses(
        PhyRegister { addr: PHCON2 },
        0x0100,
    ) + seq![wcr(Register::EIE, 0xc0), wcr(Register::ECON1, 0x04)]
}

/// Appends the writes of a 16-bit `val` to `lo` and `hi`, low byte first.
fn push_u16(v: &mut Vec<Access>, lo: Register, hi: Register, val: u16)
    ensures
        final(v)@ == old(v)@ + seq![wcr(lo, (val % 256) as u8), wcr(hi, (val / 256) as u8)],
{
    v.push(write_access(lo, crate::command::low_byte(val)));
    v.push(write_access(hi, crate::command::high_byte(val)));
    assert(final(v)@ =~= old(v)@ + seq![wcr(lo, (val % 256) as u8), wcr(hi, (val / 256) as u8)]);
}

/// Appends the accesses of a PHY register write.
fn push_phy(v: &mut Vec<Access>, addr: u8, val: u16)
    ensures
        final(v)@ == old(v)@ + write_phy_accesses(PhyRegister { addr }, val),
{
    v.push(write_access(Register::MIREGADR, addr));
    push_u16(v, Register::MIWRL, Register::MIWRH, val);
    assert(final(v)@ =~= old(v)@ + write_phy_accesses(PhyRegister { addr }, val));
}

/// The accesses of `config_accesses`.
fn configuration() -> (r: Vec<Access>)
    ensures
        r@ == config_accesses(),
{
    let mut v: Vec<Access> = Vec::new();
    v.push(set_access(Register::ECON2, AUTOINC_MASK));
    push_u16(&mut v, Register::ERXSTL, Register::ERXSTH, RX_START);
    push_u16(&mut v, Register::ERXNDL, Register::ERXNDH, RX_END);
    push_u16(&mut v, Register::ERXRDPTL, Register::ERXRDPTH, RX_START);
    push_u16(&mut v, Register::ETXSTL, Register::ETXSTH, TX_START);
    v.push(write_access(Register::MACON1, 0x01));
    v.push(write_access(Register::MACON3, 0b0011_0011));
    push_u16(&mut v, Register::MAMXFLL, Register::MAMXFLH, MAX_FRAME_LENGTH);
    v.push(write_access(Register::MABBIPG, 0x15));
    v.push(write_access(Register::MAIPGL, 0x06));
    v.push(write_access(Register::MAADR1, 0xff));
    v.push(write_access(Register::MAADR2, 0xca));
    v.push(write_access(Register::MAADR3, 0xde));
    v.push(write_access(Register::MAADR4, 0xee));
    v.push(write_access(Register::MAADR5, 0xff));
    v.push(write_access(Register::MAADR6, 0xc0));
    v.push(write_access(Register::ERXFCON, 0));
    push_phy(&mut v, PHCON1, 0x0100);
    push_phy(&mut v, PHCON2, 0x0100);
    v.push(write_access(Register::EIE, 0b1100_0000));
    v.push(write_access(Register::ECON1, 0b0000_0100));
    assert(v@ =~= config_accesses());
    v
}

/// Whether the CLKRDY wait is skipped for `revision`.
pub fn skip_clock_wait(revision: u8) -> (r: bool)
    ensures
        r == skips_clock_wait(revision),
{
    match revision {
        0x00 | 0xff => true,
        0b0010 | 0b1000 | 0b0101 | 0b0110 => true,
        _ => false,
    }
}

impl Enc28j60 {
    /// The procedure that initializes the device once after construction.
    pub fn initialize(&self) -> (r: Initialize)
        ensures
            r.phase == InitPhase::Start,
    {
        Initialize { phase: InitPhase::Start }
    }
}

impl Initialize {
    /// Asks for the configuration to be written.
    fn configure(&mut self, dev: &mut Enc28j60) -> (r: Step<()>)
        ensures
            r matches Step::Issue(c) && c@ == program(old(dev)@, config_accesses()),
            final(dev)@ == final_bank(old(dev)@, config_accesses()),
            final(dev)@ == Bank::Bank0,
            final(self).phase == InitPhase::Configure,
    {
        proof {
            let c = config_accesses();
            assert(c.last() == wcr(Register::ECON1, 0x04));
            assert(0x04u8 & 0b11u8 == 0) by (bit_vector);
        }
        self.phase = InitPhase::Configure;
        let accesses = configuration();
        Step::Issue(dev.run(&accesses))
    }

    /// One step of the procedure: what the device answered to the previous
    /// step's commands goes in, the next commands or the result come out.
    /// Any failure of the bus, or an answer of the wrong kind, abandons it.
    pub fn step(&mut self, dev: &mut Enc28j60, event: Event) -> (r: Step<()>)
        ensures
            (event is Failed || old(self).phase == InitPhase::Done) ==> r is Failed
                && final(self).phase == InitPhase::Done,
            r is Failed ==> final(dev)@ == old(dev)@,
            // The System Reset Command, then a pause for the oscillator.
            old(self).phase == InitPhase::Start && !(event is Failed) ==> {
                &&& r matches Step::Issue(c) && c@ == seq![Command::Byte(0xff)]
                &&& final(self).phase == InitPhase::Reset
                &&& final(dev)@ == old(dev)@
            },
            old(self).phase == InitPhase::Reset && !(event is Failed) ==> {
                &&& r == Step::<()>::Pause(SETTLE_MICROS)
                &&& final(self).phase == InitPhase::Settle
                &&& final(dev)@ == old(dev)@
            },
            old(self).phase == InitPhase::Settle && !(event is Failed) ==> {
                &&& r matches Step::Issue(c) && c@ == read_commands(old(dev)@, Register::EREVID)
                &&& final(self).phase == InitPhase::Revision
                &&& final(dev)@ == Bank::Bank3
            },
            // Skip the CLKRDY wait on the revisions that call for it; else
            // read ESTAT.
            old(self).phase == InitPhase::Revision && !(event is Failed) ==> match read_value(
                event,
                Register::EREVID,
            ) {
                Some(revision) => if skips_clock_wait(revision) {
                    &&& r matches Step::Issue(c) && c@ == program(old(dev)@, config_accesses())
                    &&& final(self).phase == InitPhase::Configure
                    &&& final(dev)@ == Bank::Bank0
                } else {
                    &&& r matches Step::Issue(c) && c@ == read_commands(old(dev)@, Register::ESTAT)
                    &&& final(self).phase == InitPhase::Clock
                    &&& final(dev)@ == old(dev)@
                },
                None => r is Failed,
            },
            // Read ESTAT until CLKRDY is set, then write the configuration.
            old(self).phase == InitPhase::Clock && !(event is Failed) ==> match read_value(
                event,
                Register::ESTAT,
            ) {
                Some(v) => if v & CLKRDY_MASK != 0 {
                    &&& r matches Step::Issue(c) && c@ == program(old(dev)@, config_accesses())
                    &&& final(self).phase == InitPhase::Configure
                    &&& final(dev)@ == Bank::Bank0
                } else {
                    &&& r matches Step::Issue(c) && c@ == read_commands(old(dev)@, Register::ESTAT)
                    &&& final(self).phase == InitPhase::Clock
                    &&& final(dev)@ == old(dev)@
                },
                None => r is Failed,
            },
            old(self).phase == InitPhase::Configure && !(event is Failed) ==> match event {
                Event::Sent => r == Step::<()>::Finished(()),
                _ => r is Failed,
            } && final(dev)@ == old(dev)@,
    {
        if let Event::Failed = event {
            self.phase = InitPhase::Done;
            return Step::Failed;
        }
        match self.phase {
            InitPhase::Start => {
                self.phase = InitPhase::Reset;
                let mut c: Vec<Command> = Vec::new();
                c.push(dev.reset_via_spi());
                assert(c@ =~= seq![Command::Byte(0xff)]);
                Step::Issue(c)
            },
            InitPhase::Reset => {
                self.phase = InitPhase::Settle;
                Step::Pause(SETTLE_MICROS)
            },
            InitPhase::Settle => {
                self.phase = InitPhase::Revision;
                Step::Issue(dev.read_control(Register::EREVID.descriptor()))
            },
            InitPhase::Revision => {
                if let Event::Received(rx) = event {
                    let revision = control_value(Register::EREVID.descriptor(), rx);
                    if skip_clock_wait(revision) {
                        self.configure(dev)
                    } else {
                        self.phase = InitPhase::Clock;
                        Step::Issue(dev.read_control(Register::ESTAT.descriptor()))
                    }
                } else {
                    self.phase = InitPhase::Done;
                    Step::Failed
                }
            },
            InitPhase::Clock => {
                if let Event::Received(rx) = event {
                    let v = control_value(Register::ESTAT.descriptor(), rx);
                    if v & CLKRDY_MASK != 0 {
                        self.configure(dev)
                    } else {
                        Step::Issue(dev.read_control(Register::ESTAT.descriptor()))
                    }
                } else {
                    self.phase = InitPhase::Done;
                    Step::Failed
                }
            },
            InitPhase::Configure => {
                self.phase = InitPhase::Done;
                if let Event::Sent = event {
                    Step::Finished(())
                } else {
                    Step::Failed
                }
            },
            _ => {
                self.phase = InitPhase::Done;
                Step::Failed
            },
        }
    }
}

} // verus!
