//! The transmit procedure: sends one Ethernet frame.
use vstd::prelude::*;
use crate::command::{
    bfc, bfs, combine_u16, control_value, final_bank, mem_write, program, rcr,
    write_u16_accesses, Access, Command,
};
use crate::device::{Enc28j60, Event, Step};
use crate::receive::{read_bank, read_commands, read_value};
use crate::register::{command_byte, Bank, Op, Register};

verus! {

/// The per-packet control byte: every option taken from MACON3.
pub const PACKET_CONTROL: u8 = 0x00;

/// EIR.TXIF: transmit done.
pub const TXIF_MASK: u8 = 0b0000_1000;

/// ECON1.TXRTS: transmit request to send.
pub const TXRTS_MASK: u8 = 0b0000_1000;

/// ESTAT.TXABRT: transmit aborted.
pub const TXABRT_MASK: u8 = 0b0000_0010;

/// Where the transmit procedure stands.
#[derive(Clone, Copy, PartialEq, Eq, Structural, Debug)]
pub enum TransmitPhase {
    /// Nothing issued yet.
    Start,
    /// ETXSTL is being read.
    StartLow,
    /// ETXSTH is being read.
    StartHigh,
    /// The frame is being written and sent; ECON1 is read until TXRTS clears.
    Poll,
    /// ESTAT is being read.
    Status,
    /// ESTAT.TXABRT is being cleared.
    Clear,
    /// The procedure is over.
    Done,
}

/// The transmit procedure for one frame: destination, source, then `data`,
/// which starts with the EtherType.
#[derive(Debug)]
pub struct Transmit {
    pub phase: TransmitPhase,
    pub dst: [u8; 6],
    pub src: [u8; 6],
    pub data: Vec<u8>,
    /// The low byte of ETXST, once read.
    pub start_low: u8,
}

/// The last byte of a frame of `data_len` bytes of data that starts at
/// `tx_start`, after its control byte and two addresses.
pub open spec fn frame_end(tx_start: u16, data_len: nat) -> u16 {
    ((tx_start + 1 + 6 + 6 + data_len - 1) % 65536) as u16
}

/// The accesses after the frame is in buffer memory: ETXND, clear EIR.TXIF,
/// set ECON1.TXRTS, then the first read of ECON1.
pub open spec fn start_accesses(tx_end: u16) -> Seq<Access> {
    write_u16_accesses(
        Register::ETXNDL.spec_descriptor(),
        Register::ETXNDH.spec_descriptor(),
        tx_end,
    ) + seq![bfc(Register::EIR, TXIF_MASK), bfs(Register::ECON1, TXRTS_MASK), rcr(Register::ECON1)]
}

/// The accesses that point EWRPT at the frame's start.
pub open spec fn pointer_accesses(tx_start: u16) -> Seq<Access> {
    write_u16_accesses(
        Register::EWRPTL.spec_descriptor(),
        Register::EWRPTH.spec_descriptor(),
        tx_start,
    )
}

/// Whether `c` writes `bytes` into buffer memory.
pub open spec fn writes_buffer(c: Command, bytes: Seq<u8>) -> bool {
    c matches Command::WriteBuffer(op, d) && op == command_byte(Op::WBM, 0x1a) && d@ == bytes
}

/// Whether `c` holds the commands that write the frame at `tx_start` and start
/// its transmission, from bank `bank`: EWRPT, the control byte, the two
/// addresses and the data, then `start_accesses`.
pub open spec fn frame_commands(
    c: Seq<Command>,
    bank: Bank,
    tx_start: u16,
    dst: Seq<u8>,
    src: Seq<u8>,
    data: Seq<u8>,
) -> bool {
    let head = program(bank, pointer_accesses(tx_start));
    let h = head.len() as int;
    let tail = program(
        final_bank(bank, pointer_accesses(tx_start)),
        start_accesses(frame_end(tx_start, data.len())),
    );
    &&& c.len() == h + 4 + tail.len()
    &&& c.subrange(0, h) == head
    &&& writes_buffer(c[h], seq![PACKET_CONTROL])
    &&& writes_buffer(c[h + 1], dst)
    &&& writes_buffer(c[h + 2], src)
    &&& writes_buffer(c[h + 3], data)
    &&& c.subrange(h + 4, c.len() as int) == tail
}

/// A copy of `a` as a vector.
fn copy_bytes(a: &[u8]) -> (r: Vec<u8>)
    ensures
        r@ == a@,
{
    let mut r: Vec<u8> = Vec::new();
    let mut i: usize = 0;
    while i < a.len()
        invariant
            i <= a@.len(),
            r@ == a@.subrange(0, i as int),
        decreases a@.len() - i,
    {
        r.push(a[i]);
        i = i + 1;
        assert(r@ =~= a@.subrange(0, i as int));
    }
    assert(a@.subrange(0, a@.len() as int) =~= a@);
    r
}

/// A copy of a six-byte address as a vector.
fn address_bytes(a: &[u8; 6]) -> (r: Vec<u8>)
    ensures
        r@ == a@,
{
    let r = vec![a[0], a[1], a[2], a[3], a[4], a[5]];
    assert(r@ =~= a@);
    r
}

/// The last byte of the frame, as `frame_end` gives it.
fn tx_end_of(tx_start: u16, data_len: usize) -> (r: u16)
    ensures
        r == frame_end(tx_start, data_len as nat),
{
    let l = (data_len % 65536) as u16;
    let r = tx_start.wrapping_add(12).wrapping_add(l);
    assert(r == frame_end(tx_start, data_len as nat)) by (nonlinear_arith)
        requires
            l == data_len % 65536,
            r == ((tx_start + 12) % 65536 + l) % 65536,
    ;
    r
}

impl Enc28j60 {
    /// The procedure that sends the frame `dst`, `src`, `data`, where `data`
    /// begins with the EtherType in network byte order. It finishes with
    /// whether the device reported the transmission aborted.
    pub fn transmit(&self, dst: [u8; 6], src: [u8; 6], data: Vec<u8>) -> (r: Transmit)
        ensures
            r.phase == TransmitPhase::Start,
            r.dst == dst,
            r.src == src,
            r.data@ == data@,
    {
        Transmit { phase: TransmitPhase::Start, dst, src, data, start_low: 0 }
    }
}

impl Transmit {
    /// The commands that write the frame at `tx_start` and start sending it.
    fn frame(&self, dev: &mut Enc28j60, tx_start: u16) -> (r: Vec<Command>)
        ensures
            frame_commands(r@, old(dev)@, tx_start, self.dst@, self.src@, self.data@),
            final(dev)@ == final_bank(
                final_bank(old(dev)@, pointer_accesses(tx_start)),
                start_accesses(frame_end(tx_start, self.data@.len())),
            ),
    {
        let ghost from = dev@;
        let mut c: Vec<Command> = Vec::new();
        dev.write_u16(&mut c, Register::EWRPTL.descriptor(), Register::EWRPTH.descriptor(), tx_start);
        let ghost head = c@;
        assert(head =~= program(from, pointer_accesses(tx_start)));
        let mut control: Vec<u8> = Vec::new();
        control.push(PACKET_CONTROL);
        assert(control@ =~= seq![PACKET_CONTROL]);
        c.push(mem_write(control));
        c.push(mem_write(address_bytes(&self.dst)));
        c.push(mem_write(address_bytes(&self.src)));
        c.push(mem_write(copy_bytes(self.data.as_slice())));
        let ghost mid = dev@;
        let tx_end = tx_end_of(tx_start, self.data.len());
        let mut t: Vec<Command> = Vec::new();
        dev.write_u16(&mut t, Register::ETXNDL.descriptor(), Register::ETXNDH.descriptor(), tx_end);
        let ghost s0 = write_u16_accesses(
            Register::ETXNDL.spec_descriptor(),
            Register::ETXNDH.spec_descriptor(),
            tx_end,
        );
        assert(t@ =~= program(mid, s0));
        let a1 = Access { op: Op::BFC, reg: Register::EIR.descriptor(), data: TXIF_MASK };
        dev.emit_next(&mut t, a1, Ghost(mid), Ghost(s0));
        let ghost s1 = s0.push(a1);
        let a2 = Access { op: Op::BFS, reg: Register::ECON1.descriptor(), data: TXRTS_MASK };
        dev.emit_next(&mut t, a2, Ghost(mid), Ghost(s1));
        let ghost s2 = s1.push(a2);
        let a3 = Access { op: Op::RCR, reg: Register::ECON1.descriptor(), data: 0 };
        dev.emit_next(&mut t, a3, Ghost(mid), Ghost(s2));
        assert(s2.push(a3) =~= start_accesses(frame_end(tx_start, self.data@.len())));
        let ghost tail = t@;
        let ghost pre = c@;
        let ghost h = head.len() as int;
        assert(writes_buffer(pre[h], seq![PACKET_CONTROL]));
        assert(writes_buffer(pre[h + 1], self.dst@));
        assert(writes_buffer(pre[h + 2], self.src@));
        assert(writes_buffer(pre[h + 3], self.data@));
        c.append(&mut t);
        assert(c@ =~= pre + tail);
        assert(c@.subrange(0, head.len() as int) =~= head);
        assert(c@.subrange(head.len() as int + 4, c@.len() as int) =~= tail);
        c
    }

    /// One step of the procedure: what the device answered to the previous
    /// step's commands goes in, the next commands or the result come out.
    /// Any failure of the bus, or an answer of the wrong kind, abandons it.
    pub fn step(&mut self, dev: &mut Enc28j60, event: Event) -> (r: Step<bool>)
        ensures
            final(self).dst == old(self).dst,
            final(self).src == old(self).src,
            final(self).data@ == old(self).data@,
            (event is Failed || old(self).phase == TransmitPhase::Done) ==> r is Failed
                && final(self).phase == TransmitPhase::Done,
            r is Failed ==> final(dev)@ == old(dev)@,
            // Read ETXST, low byte first.
            old(self).phase == TransmitPhase::Start && !(event is Failed) ==> {
                &&& r matches Step::Issue(c) && c@ == read_commands(old(dev)@, Register::ETXSTL)
                &&& final(dev)@ == read_bank(old(dev)@, Register::ETXSTL)
                &&& final(self).phase == TransmitPhase::StartLow
            },
            old(self).phase == TransmitPhase::StartLow && !(event is Failed) ==> match read_value(
                event,
                Register::ETXSTL,
            ) {
                Some(v) => {
                    &&& r matches Step::Issue(c) && c@ == read_commands(old(dev)@, Register::ETXSTH)
                    &&& final(dev)@ == read_bank(old(dev)@, Register::ETXSTH)
                    &&& final(self).phase == TransmitPhase::StartHigh
                    &&& final(self).start_low == v
                },
                None => r is Failed,
            },
            // Write the frame at ETXST, program ETXND, clear TXIF, set TXRTS
            // and read ECON1.
            old(self).phase == TransmitPhase::StartHigh && !(event is Failed) ==> match read_value(
                event,
                Register::ETXSTH,
            ) {
                Some(v) => {
                    &&& r matches Step::Issue(c) && frame_commands(
                        c@,
                        old(dev)@,
                        (old(self).start_low + v * 256) as u16,
                        old(self).dst@,
                        old(self).src@,
                        old(self).data@,
                    )
                    &&& final(dev)@ == final_bank(
                        final_bank(old(dev)@, pointer_accesses((old(self).start_low + v * 256) as u16)),
                        start_accesses(
                            frame_end((old(self).start_low + v * 256) as u16, old(self).data@.len()),
                        ),
                    )
                    &&& final(self).phase == TransmitPhase::Poll
                },
                None => r is Failed,
            },
            // Read ECON1 until TXRTS clears, then read ESTAT.
            old(self).phase == TransmitPhase::Poll && !(event is Failed) ==> match read_value(
                event,
                Register::ECON1,
            ) {
                Some(v) => if v & TXRTS_MASK != 0 {
                    &&& r matches Step::Issue(c) && c@ == read_commands(old(dev)@, Register::ECON1)
                    &&& final(dev)@ == read_bank(old(dev)@, Register::ECON1)
                    &&& final(self).phase == TransmitPhase::Poll
                } else {
                    &&& r matches Step::Issue(c) && c@ == read_commands(old(dev)@, Register::ESTAT)
                    &&& final(dev)@ == read_bank(old(dev)@, Register::ESTAT)
                    &&& final(self).phase == TransmitPhase::Status
                },
                None => r is Failed,
            } && final(dev)@ == old(dev)@,
            // On an abort, clear ESTAT.TXABRT; finish with whether it was set.
            old(self).phase == TransmitPhase::Status && !(event is Failed) ==> match read_value(
                event,
                Register::ESTAT,
            ) {
                Some(v) => if v & TXABRT_MASK != 0 {
                    &&& r matches Step::Issue(c) && c@ == program(
                        old(dev)@,
                        seq![bfc(Register::ESTAT, TXABRT_MASK)],
                    )
                    &&& final(self).phase == TransmitPhase::Clear
                } else {
                    &&& r == Step::<bool>::Finished(false)
                    &&& final(self).phase == TransmitPhase::Done
                },
                None => r is Failed,
            } && final(dev)@ == old(dev)@,
            old(self).phase == TransmitPhase::Clear && !(event is Failed) ==> match event {
                Event::Sent => r == Step::<bool>::Finished(true),
                _ => r is Failed,
            } && final(dev)@ == old(dev)@,
    {
        if let Event::Failed = event {
            self.phase = TransmitPhase::Done;
            return Step::Failed;
        }
        match self.phase {
            TransmitPhase::Start => {
                self.phase = TransmitPhase::StartLow;
                Step::Issue(dev.read_control(Register::ETXSTL.descriptor()))
            },
            TransmitPhase::StartLow => {
                if let Event::Received(rx) = event {
                    self.start_low = control_value(Register::ETXSTL.descriptor(), rx);
                    self.phase = TransmitPhase::StartHigh;
                    Step::Issue(dev.read_control(Register::ETXSTH.descriptor()))
                } else {
                    self.phase = TransmitPhase::Done;
                    Step::Failed
                }
            },
            TransmitPhase::StartHigh => {
                if let Event::Received(rx) = event {
                    let hi = control_value(Register::ETXSTH.descriptor(), rx);
                    let tx_start = combine_u16(self.start_low, hi);
                    self.phase = TransmitPhase::Poll;
                    Step::Issue(self.frame(dev, tx_start))
                } else {
                    self.phase = TransmitPhase::Done;
                    Step::Failed
                }
            },
            TransmitPhase::Poll => {
                if let Event::Received(rx) = event {
                    let v = control_value(Register::ECON1.descriptor(), rx);
                    if v & TXRTS_MASK != 0 {
                        Step::Issue(dev.read_control(Register::ECON1.descriptor()))
                    } else {
                        self.phase = TransmitPhase::Status;
                        Step::Issue(dev.read_control(Register::ESTAT.descriptor()))
                    }
                } else {
                    self.phase = TransmitPhase::Done;
                    Step::Failed
                }
            },
            TransmitPhase::Status => {
                if let Event::Received(rx) = event {
                    let v = control_value(Register::ESTAT.descriptor(), rx);
                    if v & TXABRT_MASK != 0 {
                        self.phase = TransmitPhase::Clear;
                        let ghost from = dev@;
                        let mut c: Vec<Command> = Vec::new();
                        let a = Access { op: Op::BFC, reg: Register::ESTAT.descriptor(), data: TXABRT_MASK };
                        dev.emit_next(&mut c, a, Ghost(from), Ghost(Seq::empty()));
                        assert(Seq::<Access>::empty().push(a) =~= seq![bfc(Register::ESTAT, TXABRT_MASK)]);
                        Step::Issue(c)
                    } else {
                        self.phase = TransmitPhase::Done;
                        Step::Finished(false)
                    }
                } else {
                    self.phase = TransmitPhase::Done;
                    Step::Failed
                }
            },
            TransmitPhase::Clear => {
                self.phase = TransmitPhase::Done;
                if let Event::Sent = event {
                    Step::Finished(true)
                } else {
                    Step::Failed
                }
            },
            TransmitPhase::Done => Step::Failed,
        }
    }
}

} // verus!
