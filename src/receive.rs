//! The receive procedure: takes one packet out of the device's receive ring.
use vstd::prelude::*;
use crate::command::{
    access_commands, bfs, combine_u16, control_value, mem_read, program, rcr, read_buffer,
    register_value, write_u16_accesses, Access, Command, READ_BUFFER_OPCODE,
};
use crate::device::{Enc28j60, Event, Step};
use crate::register::{command_byte, Op, Register};

verus! {

/// Size of the scratch buffer through which the tail of an oversized packet is
/// drained.
pub const DRAIN_CHUNK: usize = 64;

/// Length of the receive status vector ahead of each packet.
pub const RSV_LEN: usize = 6;

/// Length of the CRC that the device counts in a packet's byte count.
pub const CRC_LEN: u16 = 4;

/// ECON2.PKTDEC: decrements EPKTCNT.
pub const PKTDEC_MASK: u8 = 0b0100_0000;

/// Where the receive procedure stands.
#[derive(Clone, Copy, PartialEq, Eq, Structural, Debug)]
pub enum ReceivePhase {
    /// Nothing issued yet.
    Start,
    /// EPKTCNT is being read.
    Count,
    /// The receive status vector is being read.
    Header,
    /// The packet is being read into the caller's buffer, or its tail drained.
    Payload,
    /// ERXSTL is being read.
    StartLow,
    /// ERXSTH is being read.
    StartHigh,
    /// ERXNDL is being read.
    EndLow,
    /// ERXNDH is being read.
    EndHigh,
    /// ERXRDPT is being advanced and EPKTCNT decremented.
    Release,
    /// The procedure is over.
    Done,
}

/// The receive procedure for a caller's buffer of `buf_len` bytes.
#[derive(Clone, Copy, Debug)]
pub struct Receive {
    pub phase: ReceivePhase,
    pub buf_len: usize,
    /// Where the device put the next packet.
    pub next_packet: u16,
    /// Bytes of this packet to be copied into the caller's buffer.
    pub copy_len: usize,
    /// Bytes of this packet still to be drained.
    pub remaining: usize,
    /// The low byte of ERXST, once read.
    pub start_low: u8,
    /// ERXST, once read.
    pub rx_start: u16,
    /// The low byte of ERXND, once read.
    pub end_low: u8,
}

/// The packet length without its CRC: the byte count less four, or zero.
pub open spec fn payload_len(byte_count: u16) -> int {
    if byte_count >= 4 {
        byte_count - 4
    } else {
        0
    }
}

/// The bytes of a packet copied into a buffer of `buf_len` bytes.
pub open spec fn copy_len(byte_count: u16, buf_len: usize) -> int {
    if payload_len(byte_count) <= buf_len {
        payload_len(byte_count)
    } else {
        buf_len as int
    }
}

/// The value ERXRDPT is set to once a packet is taken out of the ring: one
/// below the next packet, or the ring's end when the next packet sits at its
/// start. ERXRDPT then stays odd, as the device's errata require.
pub open spec fn released_read_pointer(next_packet: u16, rx_start: u16, rx_end: u16) -> u16 {
    if next_packet == rx_start {
        rx_end
    } else {
        ((next_packet + 65535) % 65536) as u16
    }
}

/// The accesses that hand a packet's space back to the device and decrement
/// the packet count.
pub open spec fn release_accesses(new_rdpt: u16) -> Seq<Access> {
    write_u16_accesses(
        Register::ERXRDPTL.spec_descriptor(),
        Register::ERXRDPTH.spec_descriptor(),
        new_rdpt,
    ).push(bfs(Register::ECON2, PKTDEC_MASK))
}

/// The value read from `reg`, where `e` reports a register read.
pub open spec fn read_value(e: Event, reg: Register) -> Option<u8> {
    match e {
        Event::Received(rx) => Some(register_value(reg.spec_descriptor(), rx)),
        _ => None,
    }
}

/// The commands that read `reg` while `bank` is selected.
pub open spec fn read_commands(bank: crate::register::Bank, reg: Register) -> Seq<Command> {
    access_commands(bank, rcr(reg))
}

/// The bank selected after a read of `reg` made while `bank` was selected.
pub open spec fn read_bank(bank: crate::register::Bank, reg: Register) -> crate::register::Bank {
    crate::command::bank_after(bank, reg.spec_descriptor())
}

/// The command that drains `n` bytes of buffer memory.
pub open spec fn skip(n: usize) -> Command {
    Command::Skip(command_byte(Op::RBM, 0x1a), n)
}

/// The step of a receive procedure once the copy is done, with `remaining`
/// bytes of the packet left: drain a chunk of them, or read ERXSTL.
pub open spec fn drain_or_read_start(
    remaining: usize,
    m: Receive,
    bank: crate::register::Bank,
    dev: crate::register::Bank,
    r: Step<usize>,
) -> bool {
    if remaining > 0 {
        let n = if remaining <= DRAIN_CHUNK { remaining } else { DRAIN_CHUNK };
        &&& r matches Step::Issue(c) && c@ == seq![skip(n)]
        &&& m.phase == ReceivePhase::Payload
        &&& m.remaining == remaining - n
        &&& dev == bank
    } else {
        &&& r matches Step::Issue(c) && c@ == read_commands(bank, Register::ERXSTL)
        &&& m.phase == ReceivePhase::StartLow
        &&& m.remaining == 0
        &&& dev == crate::command::bank_after(bank, Register::ERXSTL.spec_descriptor())
    }
}

impl Enc28j60 {
    /// The procedure that receives one packet into a buffer of `buf_len`
    /// bytes; it finishes with the number of bytes copied.
    pub fn receive(&self, buf_len: usize) -> (r: Receive)
        ensures
            r.phase == ReceivePhase::Start,
            r.buf_len == buf_len,
    {
        Receive {
            phase: ReceivePhase::Start,
            buf_len,
            next_packet: 0,
            copy_len: 0,
            remaining: 0,
            start_low: 0,
            rx_start: 0,
            end_low: 0,
        }
    }
}

impl Receive {
    /// Asks for the next chunk of the packet's tail to be drained, or, once it
    /// is all consumed, for ERXSTL to be read.
    fn drain_or_read_start(&mut self, dev: &mut Enc28j60) -> (r: Step<usize>)
        ensures
            drain_or_read_start(old(self).remaining, *final(self), old(dev)@, final(dev)@, r),
            final(self).buf_len == old(self).buf_len,
            final(self).copy_len == old(self).copy_len,
            final(self).next_packet == old(self).next_packet,
            final(self).rx_start == old(self).rx_start,
    {
        if self.remaining > 0 {
            let n = if self.remaining <= DRAIN_CHUNK { self.remaining } else { DRAIN_CHUNK };
            self.remaining = self.remaining - n;
            self.phase = ReceivePhase::Payload;
            let mut c: Vec<Command> = Vec::new();
            c.push(Command::Skip(READ_BUFFER_OPCODE, n));
            assert(c@ =~= seq![skip(n)]);
            Step::Issue(c)
        } else {
            self.phase = ReceivePhase::StartLow;
            Step::Issue(dev.read_control(Register::ERXSTL.descriptor()))
        }
    }

    /// One step of the procedure: what the device answered to the previous
    /// step's commands goes in, the next commands or the result come out.
    /// Any failure of the bus, or an answer of the wrong kind, abandons it.
    pub fn step(&mut self, dev: &mut Enc28j60, event: Event) -> (r: Step<usize>)
        ensures
            final(self).buf_len == old(self).buf_len,
            old(self).phase != ReceivePhase::Header ==> final(self).copy_len == old(self).copy_len
                && final(self).next_packet == old(self).next_packet,
            old(self).phase != ReceivePhase::StartHigh ==> final(self).rx_start
                == old(self).rx_start,
            (event is Failed || old(self).phase == ReceivePhase::Done) ==> r is Failed
                && final(self).phase == ReceivePhase::Done,
            r is Failed ==> final(dev)@ == old(dev)@,
            // Read the number of packets waiting.
            old(self).phase == ReceivePhase::Start && !(event is Failed) ==> {
                &&& r matches Step::Issue(c) && c@ == read_commands(old(dev)@, Register::EPKTCNT)
                &&& final(dev)@ == read_bank(old(dev)@, Register::EPKTCNT)
                &&& final(self).phase == ReceivePhase::Count
                &&& final(dev)@ == crate::register::Bank::Bank1
            },
            // With no packet waiting, finish at once with nothing copied;
            // else read the receive status vector.
            old(self).phase == ReceivePhase::Count && !(event is Failed) ==> match read_value(
                event,
                Register::EPKTCNT,
            ) {
                None => r is Failed,
                Some(n) => if n == 0 {
                    r == Step::<usize>::Finished(0) && final(self).phase == ReceivePhase::Done
                } else {
                    &&& r matches Step::Issue(c) && c@ == seq![read_buffer(6)]
                    &&& final(self).phase == ReceivePhase::Header
                },
            } && final(dev)@ == old(dev)@,
            // Decode the status vector; copy what fits, then drain the rest.
            old(self).phase == ReceivePhase::Header && !(event is Failed) ==> match event {
                Event::Data(d) => if d@.len() == 6 {
                    let next = d@[0] + d@[1] * 256;
                    let count = (d@[2] + d@[3] * 256) as u16;
                    &&& final(self).next_packet == next
                    &&& final(self).copy_len == copy_len(count, old(self).buf_len)
                    &&& if final(self).copy_len > 0 {
                        &&& r matches Step::Issue(c) && c@ == seq![
                            Command::ReadPayload(command_byte(Op::RBM, 0x1a), final(self).copy_len),
                        ]
                        &&& final(self).phase == ReceivePhase::Payload
                        &&& final(self).remaining == payload_len(count) - final(self).copy_len
                        &&& final(dev)@ == old(dev)@
                    } else {
                        drain_or_read_start(payload_len(count) as usize, *final(self), old(dev)@, final(dev)@, r)
                    }
                } else {
                    r is Failed
                },
                _ => r is Failed,
            },
            // Drain the packet's tail in chunks, then read ERXST.
            old(self).phase == ReceivePhase::Payload && !(event is Failed) ==> match event {
                Event::Sent => drain_or_read_start(old(self).remaining, *final(self), old(dev)@, final(dev)@, r)
                    && final(self).copy_len == old(self).copy_len
                    && final(self).next_packet == old(self).next_packet,
                _ => r is Failed,
            },
            // Read ERXST and ERXND, low byte first.
            old(self).phase == ReceivePhase::StartLow && !(event is Failed) ==> match read_value(
                event,
                Register::ERXSTL,
            ) {
                Some(v) => {
                    &&& r matches Step::Issue(c) && c@ == read_commands(old(dev)@, Register::ERXSTH)
                    &&& final(dev)@ == read_bank(old(dev)@, Register::ERXSTH)
                    &&& final(self).phase == ReceivePhase::StartHigh
                    &&& final(self).start_low == v
                },
                None => r is Failed,
            },
            old(self).phase == ReceivePhase::StartHigh && !(event is Failed) ==> match read_value(
                event,
                Register::ERXSTH,
            ) {
                Some(v) => {
                    &&& r matches Step::Issue(c) && c@ == read_commands(old(dev)@, Register::ERXNDL)
                    &&& final(dev)@ == read_bank(old(dev)@, Register::ERXNDL)
                    &&& final(self).phase == ReceivePhase::EndLow
                    &&& final(self).rx_start == old(self).start_low + v * 256
                },
                None => r is Failed,
            },
            old(self).phase == ReceivePhase::EndLow && !(event is Failed) ==> match read_value(
                event,
                Register::ERXNDL,
            ) {
                Some(v) => {
                    &&& r matches Step::Issue(c) && c@ == read_commands(old(dev)@, Register::ERXNDH)
                    &&& final(dev)@ == read_bank(old(dev)@, Register::ERXNDH)
                    &&& final(self).phase == ReceivePhase::EndHigh
                    &&& final(self).end_low == v
                },
                None => r is Failed,
            },
            // Point ERXRDPT one below the next packet and decrement EPKTCNT.
            old(self).phase == ReceivePhase::EndHigh && !(event is Failed) ==> match read_value(
                event,
                Register::ERXNDH,
            ) {
                Some(v) => {
                    let rdpt = released_read_pointer(
                        old(self).next_packet,
                        old(self).rx_start,
                        (old(self).end_low + v * 256) as u16,
                    );
                    &&& r matches Step::Issue(c) && c@ == program(old(dev)@, release_accesses(rdpt))
                    &&& final(self).phase == ReceivePhase::Release
                    &&& final(dev)@ == crate::command::final_bank(old(dev)@, release_accesses(rdpt))
                },
                None => r is Failed,
            },
            // Finish with the number of bytes copied.
            old(self).phase == ReceivePhase::Release && !(event is Failed) ==> match event {
                Event::Sent => r == Step::<usize>::Finished(old(self).copy_len),
                _ => r is Failed,
            } && final(dev)@ == old(dev)@,
    {
        if let Event::Failed = event {
            self.phase = ReceivePhase::Done;
            return Step::Failed;
        }
        match self.phase {
            ReceivePhase::Start => {
                self.phase = ReceivePhase::Count;
                Step::Issue(dev.read_control(Register::EPKTCNT.descriptor()))
            },
            ReceivePhase::Count => {
                if let Event::Received(rx) = event {
                    let n = control_value(Register::EPKTCNT.descriptor(), rx);
                    if n == 0 {
                        self.phase = ReceivePhase::Done;
                        Step::Finished(0)
                    } else {
                        self.phase = ReceivePhase::Header;
                        let mut c: Vec<Command> = Vec::new();
                        c.push(mem_read(RSV_LEN));
                        assert(c@ =~= seq![read_buffer(6)]);
                        Step::Issue(c)
                    }
                } else {
                    self.phase = ReceivePhase::Done;
                    Step::Failed
                }
            },
            ReceivePhase::Header => {
                if let Event::Data(d) = event {
                    if d.len() != RSV_LEN {
                        self.phase = ReceivePhase::Done;
                        return Step::Failed;
                    }
                    self.next_packet = combine_u16(d[0], d[1]);
                    let count = combine_u16(d[2], d[3]);
                    let payload: usize = if count >= CRC_LEN { (count - CRC_LEN) as usize } else { 0 };
                    let copy = if payload <= self.buf_len { payload } else { self.buf_len };
                    self.copy_len = copy;
                    if copy > 0 {
                        self.remaining = payload - copy;
                        self.phase = ReceivePhase::Payload;
                        let mut c: Vec<Command> = Vec::new();
                        c.push(Command::ReadPayload(READ_BUFFER_OPCODE, copy));
                        assert(c@ =~= seq![Command::ReadPayload(command_byte(Op::RBM, 0x1a), copy)]);
                        Step::Issue(c)
                    } else {
                        self.remaining = payload;
                        self.drain_or_read_start(dev)
                    }
                } else {
                    self.phase = ReceivePhase::Done;
                    Step::Failed
                }
            },
            ReceivePhase::Payload => {
                if let Event::Sent = event {
                    self.drain_or_read_start(dev)
                } else {
                    self.phase = ReceivePhase::Done;
                    Step::Failed
                }
            },
            ReceivePhase::StartLow => {
                if let Event::Received(rx) = event {
                    self.start_low = control_value(Register::ERXSTL.descriptor(), rx);
                    self.phase = ReceivePhase::StartHigh;
                    Step::Issue(dev.read_control(Register::ERXSTH.descriptor()))
                } else {
                    self.phase = ReceivePhase::Done;
                    Step::Failed
                }
            },
            ReceivePhase::StartHigh => {
                if let Event::Received(rx) = event {
                    let hi = control_value(Register::ERXSTH.descriptor(), rx);
                    self.rx_start = combine_u16(self.start_low, hi);
                    self.phase = ReceivePhase::EndLow;
                    Step::Issue(dev.read_control(Register::ERXNDL.descriptor()))
                } else {
                    self.phase = ReceivePhase::Done;
                    Step::Failed
                }
            },
            ReceivePhase::EndLow => {
                if let Event::Received(rx) = event {
                    self.end_low = control_value(Register::ERXNDL.descriptor(), rx);
                    self.phase = ReceivePhase::EndHigh;
                    Step::Issue(dev.read_control(Register::ERXNDH.descriptor()))
                } else {
                    self.phase = ReceivePhase::Done;
                    Step::Failed
                }
            },
            ReceivePhase::EndHigh => {
                if let Event::Received(rx) = event {
                    let hi = control_value(Register::ERXNDH.descriptor(), rx);
                    let rx_end = combine_u16(self.end_low, hi);
                    let rdpt = if self.next_packet == self.rx_start {
                        rx_end
                    } else {
                        self.next_packet.wrapping_sub(1)
                    };
                    let ghost from = dev@;
                    let ghost s = write_u16_accesses(
                        Register::ERXRDPTL.spec_descriptor(),
                        Register::ERXRDPTH.spec_descriptor(),
                        rdpt,
                    );
                    let mut c: Vec<Command> = Vec::new();
                    dev.write_u16(
                        &mut c,
                        Register::ERXRDPTL.descriptor(),
                        Register::ERXRDPTH.descriptor(),
                        rdpt,
                    );
                    assert(c@ =~= program(from, s));
                    let a = Access { op: Op::BFS, reg: Register::ECON2.descriptor(), data: PKTDEC_MASK };
                    dev.emit_next(&mut c, a, Ghost(from), Ghost(s));
                    self.phase = ReceivePhase::Release;
                    Step::Issue(c)
                } else {
                    self.phase = ReceivePhase::Done;
                    Step::Failed
                }
            },
            ReceivePhase::Release => {
                self.phase = ReceivePhase::Done;
                if let Event::Sent = event {
                    Step::Finished(self.copy_len)
                } else {
                    Step::Failed
                }
            },
            ReceivePhase::Done => Step::Failed,
        }
    }
}

} // verus!
