//! The PHY read procedure, through the MII registers.
use vstd::prelude::*;
use crate::command::{
    combine_u16, control_value, final_bank, program, rcr, read_access, wcr, write_access, Access,
};
use crate::device::{Enc28j60, Event, Step};
use crate::receive::{read_bank, read_commands, read_value};
use crate::register::{PhyRegister, Register};

verus! {

/// MICMD.MIIRD: start a PHY read.
pub const MIIRD: u8 = 0b01;

/// MISTAT.BUSY: an MII operation is in progress.
pub const BUSY_MASK: u8 = 0b01;

/// Where the PHY read stands.
#[derive(Clone, Copy, PartialEq, Eq, Structural, Debug)]
pub enum PhyReadPhase {
    /// Nothing issued yet.
    Start,
    /// MISTAT is read until BUSY clears.
    Busy,
    /// MIRDL is being read.
    Low,
    /// MIRDH is being read.
    High,
    /// The procedure is over.
    Done,
}

/// The procedure that reads a PHY register.
#[derive(Clone, Copy, Debug)]
pub struct ReadPhy {
    pub phase: PhyReadPhase,
    pub reg: PhyRegister,
    /// MIRDL, once read.
    pub low: u8,
}

/// The accesses that start the read of `reg`: its address into MIREGADR,
/// MICMD.MIIRD set, then the first read of MISTAT.
pub open spec fn start_read_accesses(reg: PhyRegister) -> Seq<Access> {
    seq![wcr(Register::MIREGADR, reg.addr), wcr(Register::MICMD, MIIRD), rcr(Register::MISTAT)]
}

/// The accesses once BUSY clears: MICMD.MIIRD cleared, then MIRDL read.
pub open spec fn finish_read_accesses() -> Seq<Access> {
    seq![wcr(Register::MICMD, 0), rcr(Register::MIRDL)]
}

impl Enc28j60 {
    /// The procedure that reads the PHY register `reg`; it finishes with the
    /// register's 16-bit value.
    pub fn read_phy(&self, reg: PhyRegister) -> (r: ReadPhy)
        ensures
            r.phase == PhyReadPhase::Start,
            r.reg == reg,
    {
        ReadPhy { phase: PhyReadPhase::Start, reg, low: 0 }
    }
}

impl ReadPhy {
    /// One step of the procedure: what the device answered to the previous
    /// step's commands goes in, the next commands or the result come out.
    /// Any failure of the bus, or an answer of the wrong kind, abandons it.
    pub fn step(&mut self, dev: &mut Enc28j60, event: Event) -> (r: Step<u16>)
        ensures
            final(self).reg == old(self).reg,
            (event is Failed || old(self).phase == PhyReadPhase::Done) ==> r is Failed
                && final(self).phase == PhyReadPhase::Done,
            r is Failed ==> final(dev)@ == old(dev)@,
            old(self).phase == PhyReadPhase::Start && !(event is Failed) ==> {
                &&& r matches Step::Issue(c) && c@ == program(
                    old(dev)@,
                    start_read_accesses(old(self).reg),
                )
                &&& final(self).phase == PhyReadPhase::Busy
                &&& final(dev)@ == final_bank(old(dev)@, start_read_accesses(old(self).reg))
            },
            // Poll MISTAT until BUSY clears; only then clear MIIRD.
            old(self).phase == PhyReadPhase::Busy && !(event is Failed) ==> match read_value(
                event,
                Register::MISTAT,
            ) {
                Some(v) => if v & BUSY_MASK != 0 {
                    &&& r matches Step::Issue(c) && c@ == read_commands(old(dev)@, Register::MISTAT)
                    &&& final(dev)@ == read_bank(old(dev)@, Register::MISTAT)
                    &&& final(self).phase == PhyReadPhase::Busy
                } else {
                    &&& r matches Step::Issue(c) && c@ == program(old(dev)@, finish_read_accesses())
                    &&& final(dev)@ == final_bank(old(dev)@, finish_read_accesses())
                    &&& final(self).phase == PhyReadPhase::Low
                },
                None => r is Failed,
            },
            // MIRDL, then MIRDH.
            old(self).phase == PhyReadPhase::Low && !(event is Failed) ==> match read_value(
                event,
                Register::MIRDL,
            ) {
                Some(v) => {
                    &&& r matches Step::Issue(c) && c@ == read_commands(old(dev)@, Register::MIRDH)
                    &&& final(dev)@ == read_bank(old(dev)@, Register::MIRDH)
                    &&& final(self).phase == PhyReadPhase::High
                    &&& final(self).low == v
                },
                None => r is Failed,
            },
            old(self).phase == PhyReadPhase::High && !(event is Failed) ==> match read_value(
                event,
                Register::MIRDH,
            ) {
                Some(v) => r == Step::<u16>::Finished((old(self).low + v * 256) as u16),
                None => r is Failed,
            } && final(dev)@ == old(dev)@,
    {
        if let Event::Failed = event {
            self.phase = PhyReadPhase::Done;
            return Step::Failed;
        }
        match self.phase {
            PhyReadPhase::Start => {
                let mut v: Vec<Access> = Vec::new();
                v.push(write_access(Register::MIREGADR, self.reg.addr()));
                v.push(write_access(Register::MICMD, MIIRD));
                v.push(read_access(Register::MISTAT));
                assert(v@ =~= start_read_accesses(self.reg));
                self.phase = PhyReadPhase::Busy;
                Step::Issue(dev.run(&v))
            },
            PhyReadPhase::Busy => {
                if let Event::Received(rx) = event {
                    let st = control_value(Register::MISTAT.descriptor(), rx);
                    if st & BUSY_MASK != 0 {
                        Step::Issue(dev.read_control(Register::MISTAT.descriptor()))
                    } else {
                        let mut v: Vec<Access> = Vec::new();
                        v.push(write_access(Register::MICMD, 0));
                        v.push(read_access(Register::MIRDL));
                        assert(v@ =~= finish_read_accesses());
                        self.phase = PhyReadPhase::Low;
                        Step::Issue(dev.run(&v))
                    }
                } else {
                    self.phase = PhyReadPhase::Done;
                    Step::Failed
                }
            },
            PhyReadPhase::Low => {
                if let Event::Received(rx) = event {
                    self.low = control_value(Register::MIRDL.descriptor(), rx);
                    self.phase = PhyReadPhase::High;
                    Step::Issue(dev.read_control(Register::MIRDH.descriptor()))
                } else {
                    self.phase = PhyReadPhase::Done;
                    Step::Failed
                }
            },
            PhyReadPhase::High => {
                self.phase = PhyReadPhase::Done;
                if let Event::Received(rx) = event {
                    let hi = control_value(Register::MIRDH.descriptor(), rx);
                    Step::Finished(combine_u16(self.low, hi))
                } else {
                    Step::Failed
                }
            },
            PhyReadPhase::Done => Step::Failed,
        }
    }
}

} // verus!
