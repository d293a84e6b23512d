//! The device handle: the bank cache and the commands of single register
//! accesses.
use vstd::prelude::*;
use crate::command::{
    access_commands, bank_after, bank_after_access, final_bank, program, switch_commands,
    write_u16_accesses, Access, Command, BANK_MASK, SYSTEM_RESET,
};
use crate::register::{bank_from_u8, Bank, Block, ControlRegister, Op, PhyRegister, Register};

verus! {

/// What the bus reports after the commands of a step were issued.
#[derive(Debug)]
pub enum Event {
    /// The commands went out and the last one read nothing back, or the
    /// requested pause is over.
    Sent,
    /// The three bytes clocked in during the last command, a register read.
    Received([u8; 3]),
    /// The bytes read from buffer memory by the last command.
    Data(Vec<u8>),
    /// The bus reported a failure.
    Failed,
}

/// What a procedure asks of its caller next.
#[derive(Debug)]
pub enum Step<T> {
    /// Issue these commands in order, stopping at the first failure, and
    /// report what the last one read back.
    Issue(Vec<Command>),
    /// Wait this many microseconds before the next step.
    Pause(u32),
    /// The procedure is over, with this result.
    Finished(T),
    /// The bus failed; the procedure is abandoned.
    Failed,
}

/// The device handle's own state: the bank last selected in ECON1.
pub struct Enc28j60 {
    current_bank: Bank,
}

impl View for Enc28j60 {
    type V = Bank;

    closed spec fn view(&self) -> Bank {
        self.current_bank
    }
}

/// The commands of the accesses in `s`, starting from bank `from`, agree with
/// the commands of `s` without its last access followed by that access.
proof fn lemma_program_push(from: Bank, s: Seq<Access>, a: Access)
    ensures
        program(from, s.push(a)) == program(from, s) + access_commands(final_bank(from, s), a),
        final_bank(from, s.push(a)) == bank_after_access(final_bank(from, s), a),
{
    assert(s.push(a).drop_last() =~= s);
}

impl Enc28j60 {
    /// A handle for a device just out of reset, where bank 0 is selected.
    pub fn new() -> (r: Self)
        ensures
            r@ == Bank::Bank0,
    {
        Enc28j60 { current_bank: Bank::Bank0 }
    }

    /// The bank that the handle believes selected.
    pub fn current_bank(&self) -> (r: Bank)
        ensures
            r == self@,
    {
        self.current_bank
    }

    /// Forgets the bank selection after the device was reset by its pin: the
    /// device comes out of reset with bank 0 selected.
    pub fn assume_reset(&mut self)
        ensures
            final(self)@ == Bank::Bank0,
    {
        self.current_bank = Bank::Bank0;
    }

    /// The System Reset Command, a single byte.
    pub fn reset_via_spi(&self) -> (r: Command)
        ensures
            r == Command::Byte(0xff),
    {
        Command::Byte(SYSTEM_RESET)
    }

    /// Appends the commands that select `bank` to `cmds`.
    fn set_bank(&mut self, cmds: &mut Vec<Command>, bank: Bank)
        ensures
            final(cmds)@ == old(cmds)@ + switch_commands(bank),
            final(self)@ == bank,
    {
        let econ1 = Register::ECON1.descriptor();
        cmds.push(Command::Write(econ1.opcode(Op::BFC), BANK_MASK));
        let n = bank.number();
        assert(n & 0b11 == n) by (bit_vector)
            requires n <= 3;
        cmds.push(Command::Write(econ1.opcode(Op::BFS), n & BANK_MASK));
        self.current_bank = bank;
        assert(final(cmds)@ =~= old(cmds)@ + switch_commands(bank));
    }

    /// Appends the commands of access `a` to `cmds`, switching banks first
    /// when `a` is on a bank other than the selected one. A write or bit
    /// operation on ECON1 updates the bank the handle believes selected.
    pub fn emit(&mut self, cmds: &mut Vec<Command>, a: Access)
        ensures
            final(cmds)@ == old(cmds)@ + access_commands(old(self)@, a),
            final(self)@ == bank_after_access(old(self)@, a),
    {
        match a.reg.bank() {
            Some(b) => {
                if b != self.current_bank {
                    self.set_bank(cmds, b);
                }
            },
            None => {},
        }
        let cmd = if a.op == Op::RCR {
            Command::Read(a.reg.opcode(Op::RCR))
        } else {
            Command::Write(a.reg.opcode(a.op), a.data)
        };
        cmds.push(cmd);
        assert(final(cmds)@ =~= old(cmds)@ + access_commands(old(self)@, a));
        if a.reg.bank().is_none() && a.reg.addr() == 0x1f {
            let cur = self.current_bank.number();
            let d = a.data;
            match a.op {
                Op::WCR => {
                    assert(d & 0b11 <= 3) by (bit_vector);
                    self.current_bank = bank_from_u8(d & BANK_MASK);
                },
                Op::BFS => {
                    assert((cur | d) & 0b11 <= 3) by (bit_vector);
                    self.current_bank = bank_from_u8((cur | d) & BANK_MASK);
                },
                Op::BFC => {
                    assert((cur & !d) & 0b11 <= 3) by (bit_vector);
                    self.current_bank = bank_from_u8((cur & !d) & BANK_MASK);
                },
                _ => {},
            }
        }
    }

    /// Appends the commands of access `a` to `cmds`, where `cmds` so far holds
    /// the program of the accesses `done` from bank `from`.
    pub fn emit_next(
        &mut self,
        cmds: &mut Vec<Command>,
        a: Access,
        Ghost(from): Ghost<Bank>,
        Ghost(done): Ghost<Seq<Access>>,
    )
        requires
            old(cmds)@ == program(from, done),
            old(self)@ == final_bank(from, done),
        ensures
            final(cmds)@ == program(from, done.push(a)),
            final(self)@ == final_bank(from, done.push(a)),
    {
        proof {
            lemma_program_push(from, done, a);
        }
        self.emit(cmds, a);
    }

    /// The commands of the accesses `accesses`, in order, each preceded by a
    /// bank switch where it needs one.
    pub fn run(&mut self, accesses: &Vec<Access>) -> (r: Vec<Command>)
        ensures
            r@ == program(old(self)@, accesses@),
            final(self)@ == final_bank(old(self)@, accesses@),
    {
        let ghost from = self@;
        let mut cmds: Vec<Command> = Vec::new();
        let mut i: usize = 0;
        assert(accesses@.subrange(0, 0) =~= Seq::<Access>::empty());
        while i < accesses.len()
            invariant
                i <= accesses@.len(),
                cmds@ == program(from, accesses@.subrange(0, i as int)),
                self@ == final_bank(from, accesses@.subrange(0, i as int)),
            decreases accesses@.len() - i,
        {
            let a = accesses[i];
            let ghost done = accesses@.subrange(0, i as int);
            self.emit_next(&mut cmds, a, Ghost(from), Ghost(done));
            assert(done.push(a) =~= accesses@.subrange(0, i + 1));
            i = i + 1;
        }
        assert(accesses@.subrange(0, accesses@.len() as int) =~= accesses@);
        cmds
    }

    /// The commands that read `reg`; its value is then taken out of what the
    /// last one clocked in (see `control_value`).
    pub fn read_control(&mut self, reg: ControlRegister) -> (r: Vec<Command>)
        ensures
            r@ == access_commands(old(self)@, Access { op: Op::RCR, reg, data: 0 }),
            final(self)@ == bank_after(old(self)@, reg),
    {
        let mut cmds: Vec<Command> = Vec::new();
        self.emit(&mut cmds, Access { op: Op::RCR, reg, data: 0 });
        assert(cmds@ =~= access_commands(old(self)@, Access { op: Op::RCR, reg, data: 0 }));
        cmds
    }

    /// The commands that write `data` into `reg`.
    pub fn write_control(&mut self, reg: ControlRegister, data: u8) -> (r: Vec<Command>)
        ensures
            r@ == access_commands(old(self)@, Access { op: Op::WCR, reg, data }),
            final(self)@ == bank_after_access(old(self)@, Access { op: Op::WCR, reg, data }),
    {
        let mut cmds: Vec<Command> = Vec::new();
        self.emit(&mut cmds, Access { op: Op::WCR, reg, data });
        assert(cmds@ =~= access_commands(old(self)@, Access { op: Op::WCR, reg, data }));
        cmds
    }

    /// The commands that set the bits of `mask` in the ETH register `reg`;
    /// the device leaves bit operations on MAC and MII registers undefined.
    pub fn bit_set(&mut self, reg: ControlRegister, mask: u8) -> (r: Vec<Command>)
        requires
            reg.bloc == Block::Eth,
        ensures
            r@ == access_commands(old(self)@, Access { op: Op::BFS, reg, data: mask }),
            final(self)@ == bank_after_access(old(self)@, Access { op: Op::BFS, reg, data: mask }),
    {
        let mut cmds: Vec<Command> = Vec::new();
        self.emit(&mut cmds, Access { op: Op::BFS, reg, data: mask });
        assert(cmds@ =~= access_commands(old(self)@, Access { op: Op::BFS, reg, data: mask }));
        cmds
    }

    /// The commands that clear the bits of `mask` in the ETH register `reg`.
    pub fn bit_clear(&mut self, reg: ControlRegister, mask: u8) -> (r: Vec<Command>)
        requires
            reg.bloc == Block::Eth,
        ensures
            r@ == access_commands(old(self)@, Access { op: Op::BFC, reg, data: mask }),
            final(self)@ == bank_after_access(old(self)@, Access { op: Op::BFC, reg, data: mask }),
    {
        let mut cmds: Vec<Command> = Vec::new();
        self.emit(&mut cmds, Access { op: Op::BFC, reg, data: mask });
        assert(cmds@ =~= access_commands(old(self)@, Access { op: Op::BFC, reg, data: mask }));
        cmds
    }

    /// Appends the commands that write the 16-bit `val` to the pair `lo`,
    /// `hi`: low byte first, since the device latches some pairs on the write
    /// of the high byte.
    pub fn write_u16(
        &mut self,
        cmds: &mut Vec<Command>,
        lo: ControlRegister,
        hi: ControlRegister,
        val: u16,
    )
        ensures
            final(cmds)@ == old(cmds)@ + program(old(self)@, write_u16_accesses(lo, hi, val)),
            final(self)@ == final_bank(old(self)@, write_u16_accesses(lo, hi, val)),
    {
        let ghost start = cmds@;
        let ghost from = self@;
        let ghost s = write_u16_accesses(lo, hi, val);
        let l = crate::command::low_byte(val);
        let h = crate::command::high_byte(val);
        self.emit(cmds, Access { op: Op::WCR, reg: lo, data: l });
        self.emit(cmds, Access { op: Op::WCR, reg: hi, data: h });
        proof {
            lemma_program_push(from, Seq::empty(), s[0]);
            lemma_program_push(from, seq![s[0]], s[1]);
            assert(Seq::<Access>::empty().push(s[0]) =~= seq![s[0]]);
            assert(seq![s[0]].push(s[1]) =~= s);
            assert(Seq::<Command>::empty() + access_commands(from, s[0]) =~= access_commands(from, s[0]));
        }
        assert(final(cmds)@ =~= start + program(from, s));
    }

    /// The commands that write `data` into the PHY register `reg`: its
    /// address into MIREGADR, then the value into MIWRL and MIWRH. The device
    /// raises MISTAT.BUSY while it performs the write.
    pub fn write_phy(&mut self, reg: PhyRegister, data: u16) -> (r: Vec<Command>)
        ensures
            r@ == program(old(self)@, write_phy_accesses(reg, data)),
            final(self)@ == final_bank(old(self)@, write_phy_accesses(reg, data)),
    {
        let mut cmds: Vec<Command> = Vec::new();
        let ghost from = self@;
        let ghost s = write_phy_accesses(reg, data);
        let a = Access { op: Op::WCR, reg: Register::MIREGADR.descriptor(), data: reg.addr() };
        self.emit_next(&mut cmds, a, Ghost(from), Ghost(Seq::empty()));
        let l = crate::command::low_byte(data);
        let h = crate::command::high_byte(data);
        let b = Access { op: Op::WCR, reg: Register::MIWRL.descriptor(), data: l };
        let ghost s1 = seq![a];
        assert(Seq::<Access>::empty().push(a) =~= s1);
        self.emit_next(&mut cmds, b, Ghost(from), Ghost(s1));
        let c = Access { op: Op::WCR, reg: Register::MIWRH.descriptor(), data: h };
        let ghost s2 = seq![a, b];
        assert(s1.push(b) =~= s2);
        self.emit_next(&mut cmds, c, Ghost(from), Ghost(s2));
        assert(s2.push(c) =~= s);
        cmds
    }
}

/// The accesses of a PHY register write.
pub open spec fn write_phy_accesses(reg: PhyRegister, data: u16) -> Seq<Access> {
    seq![
        Access { op: Op::WCR, reg: Register::MIREGADR.spec_descriptor(), data: reg.addr },
        Access { op: Op::WCR, reg: Register::MIWRL.spec_descriptor(), data: (data % 256) as u8 },
        Access { op: Op::WCR, reg: Register::MIWRH.spec_descriptor(), data: (data / 256) as u8 },
    ]
}

} // verus!
