//! SPI commands and the register-access programs they are built from.
use vstd::prelude::*;
use crate::register::{bank_of, command_byte, Bank, ControlRegister, Op, Register};

verus! {

/// The fixed address of the buffer memory in the RBM and WBM opcodes.
pub const BUFFER_MEMORY: u8 = 0x1a;

/// The System Reset Command, a single byte on its own.
pub const SYSTEM_RESET: u8 = 0xff;

/// The first byte of a Read Buffer Memory command.
pub const READ_BUFFER_OPCODE: u8 = 0x3a;

/// The first byte of a Write Buffer Memory command.
pub const WRITE_BUFFER_OPCODE: u8 = 0x7a;

/// Mask of the bank-select bits of ECON1.
pub const BANK_MASK: u8 = 0b11;

/// One SPI transaction, with chip select held low throughout.
#[derive(Debug)]
pub enum Command {
    /// A single byte shifted out on its own.
    Byte(u8),
    /// Two bytes shifted out; what comes back is ignored.
    Write(u8, u8),
    /// The byte and a zero shifted out while three bytes are clocked in.
    Read(u8),
    /// The byte, then the given number of bytes read from buffer memory and
    /// handed back to the procedure that issued the command.
    ReadBuffer(u8, usize),
    /// The byte, then the given number of bytes read from buffer memory into
    /// the start of the caller's packet buffer.
    ReadPayload(u8, usize),
    /// The byte, then the given number of bytes read from buffer memory and
    /// thrown away.
    Skip(u8, usize),
    /// The byte, then the bytes written to buffer memory.
    WriteBuffer(u8, Vec<u8>),
}

/// One access to a control register: a read (RCR), a write (WCR), or a bit
/// set or clear (BFS, BFC) with its mask.
#[derive(Clone, Copy, PartialEq, Eq, Structural, Debug)]
pub struct Access {
    pub op: Op,
    pub reg: ControlRegister,
    pub data: u8,
}

/// A write of `data` into `reg`.
pub open spec fn wcr(reg: Register, data: u8) -> Access {
    Access { op: Op::WCR, reg: reg.spec_descriptor(), data }
}

/// A read of `reg`.
pub open spec fn rcr(reg: Register) -> Access {
    Access { op: Op::RCR, reg: reg.spec_descriptor(), data: 0 }
}

/// A bit set of `mask` in `reg`.
pub open spec fn bfs(reg: Register, mask: u8) -> Access {
    Access { op: Op::BFS, reg: reg.spec_descriptor(), data: mask }
}

/// A bit clear of `mask` in `reg`.
pub open spec fn bfc(reg: Register, mask: u8) -> Access {
    Access { op: Op::BFC, reg: reg.spec_descriptor(), data: mask }
}

/// The command that performs the access once the right bank is selected.
pub open spec fn access_command(a: Access) -> Command {
    if a.op == Op::RCR {
        Command::Read(command_byte(Op::RCR, a.reg.addr))
    } else {
        Command::Write(command_byte(a.op, a.reg.addr), a.data)
    }
}

/// Whether an access to `reg` needs a bank switch while `from` is selected.
pub open spec fn needs_switch(from: Bank, reg: ControlRegister) -> bool {
    match reg.bank {
        Some(b) => b != from,
        None => false,
    }
}

/// The bank selected after an access to `reg` made while `from` was selected.
pub open spec fn bank_after(from: Bank, reg: ControlRegister) -> Bank {
    match reg.bank {
        Some(b) => b,
        None => from,
    }
}

/// The bank selected after access `a` made while `from` was selected: the
/// register's own bank for a banked register; for a write or bit operation on
/// ECON1, the bank-select bits it leaves there; else `from` unchanged.
pub open spec fn bank_after_access(from: Bank, a: Access) -> Bank {
    match a.reg.bank {
        Some(b) => b,
        None => if a.reg.addr % 32 == 0x1f {
            if a.op == Op::WCR {
                bank_of(a.data & BANK_MASK)
            } else if a.op == Op::BFS {
                bank_of((from.index() | a.data) & BANK_MASK)
            } else if a.op == Op::BFC {
                bank_of((from.index() & !a.data) & BANK_MASK)
            } else {
                from
            }
        } else {
            from
        },
    }
}

/// The pair of commands that selects bank `b`: clear both bank bits of ECON1,
/// then set those of `b`.
pub open spec fn switch_commands(b: Bank) -> Seq<Command> {
    seq![
        Command::Write(command_byte(Op::BFC, 0x1f), BANK_MASK),
        Command::Write(command_byte(Op::BFS, 0x1f), b.index()),
    ]
}

/// The commands of one access made while `from` is selected: a bank switch
/// where one is needed, then the access itself.
pub open spec fn access_commands(from: Bank, a: Access) -> Seq<Command> {
    if needs_switch(from, a.reg) {
        switch_commands(bank_after(from, a.reg)).push(access_command(a))
    } else {
        seq![access_command(a)]
    }
}

/// The bank selected after the accesses `s`, starting from `from`.
pub open spec fn final_bank(from: Bank, s: Seq<Access>) -> Bank
    decreases s.len(),
{
    if s.len() == 0 {
        from
    } else {
        bank_after_access(final_bank(from, s.drop_last()), s.last())
    }
}

/// The commands of the accesses `s`, in order, starting from bank `from`.
pub open spec fn program(from: Bank, s: Seq<Access>) -> Seq<Command>
    decreases s.len(),
{
    if s.len() == 0 {
        Seq::empty()
    } else {
        program(from, s.drop_last()) + access_commands(final_bank(from, s.drop_last()), s.last())
    }
}

/// The accesses of a 16-bit write: the low byte into `lo`, then the high byte
/// into `hi`.
pub open spec fn write_u16_accesses(lo: ControlRegister, hi: ControlRegister, v: u16) -> Seq<Access> {
    seq![
        Access { op: Op::WCR, reg: lo, data: (v % 256) as u8 },
        Access { op: Op::WCR, reg: hi, data: (v / 256) as u8 },
    ]
}

/// The commands of the accesses `s` with no bank switching.
pub open spec fn plain_commands(s: Seq<Access>) -> Seq<Command> {
    s.map_values(|a: Access| access_command(a))
}

/// A run of accesses to registers of one bank `b` emits exactly one bank
/// switch, ahead of the first access, when another bank was selected, and
/// none when `b` already was.
pub proof fn lemma_same_bank_switches_once(from: Bank, b: Bank, s: Seq<Access>)
    requires
        s.len() > 0,
        forall|i: int| 0 <= i < s.len() ==> #[trigger] s[i].reg.bank == Some(b),
    ensures
        program(from, s) == (if from == b {
            Seq::<Command>::empty()
        } else {
            switch_commands(b)
        }) + plain_commands(s),
        final_bank(from, s) == b,
    decreases s.len(),
{
    let t = s.drop_last();
    if t.len() == 0 {
        assert(plain_commands(s) =~= seq![access_command(s.last())]);
        assert(program(from, t) =~= Seq::<Command>::empty());
        if from == b {
            assert(program(from, s) =~= plain_commands(s));
        } else {
            assert(program(from, s) =~= switch_commands(b) + plain_commands(s));
        }
    } else {
        assert forall|i: int| 0 <= i < t.len() implies #[trigger] t[i].reg.bank == Some(b) by {
            assert(t[i] == s[i]);
        }
        lemma_same_bank_switches_once(from, b, t);
        assert(s[s.len() - 1].reg.bank == Some(b));
        assert(plain_commands(s) =~= plain_commands(t).push(access_command(s.last())));
        let pre = if from == b { Seq::<Command>::empty() } else { switch_commands(b) };
        assert(program(from, s) =~= pre + plain_commands(s));
    }
}

/// Accesses to the registers mirrored in every bank never switch banks,
/// whatever bank is selected.
pub proof fn lemma_global_never_switches(from: Bank, s: Seq<Access>)
    requires
        forall|i: int| 0 <= i < s.len() ==> (#[trigger] s[i].reg.bank) is None,
    ensures
        program(from, s) == plain_commands(s),
    decreases s.len(),
{
    if s.len() == 0 {
        assert(plain_commands(s) =~= Seq::<Command>::empty());
    } else {
        let t = s.drop_last();
        assert forall|i: int| 0 <= i < t.len() implies (#[trigger] t[i].reg.bank) is None by {
            assert(t[i] == s[i]);
        }
        lemma_global_never_switches(from, t);
        assert(s[s.len() - 1].reg.bank is None);
        assert(plain_commands(s) =~= plain_commands(t).push(access_command(s.last())));
        assert(program(from, s) =~= plain_commands(s));
    }
}

/// A 16-bit write to a register pair of one bank puts the low byte into the
/// low register and then the high byte into the high register, and the two
/// bytes read back as `low + high * 256` give the value again.
pub proof fn lemma_write_u16_byte_order(
    from: Bank,
    lo: ControlRegister,
    hi: ControlRegister,
    v: u16,
)
    requires
        lo.bank == hi.bank,
    ensures
        ({
            let c = program(from, write_u16_accesses(lo, hi, v));
            &&& c.len() >= 2
            &&& c[c.len() - 2] == Command::Write(command_byte(Op::WCR, lo.addr), (v % 256) as u8)
            &&& c[c.len() - 1] == Command::Write(command_byte(Op::WCR, hi.addr), (v / 256) as u8)
        }),
        (v % 256) as u8 + (v / 256) as u8 * 256 == v,
{
    let s = write_u16_accesses(lo, hi, v);
    let first = seq![s[0]];
    assert(s.drop_last() =~= first);
    assert(first.drop_last() =~= Seq::<Access>::empty());
    let b1 = final_bank(from, first);
    assert(b1 == bank_after_access(from, s[0]));
    assert(!needs_switch(b1, hi));
    let first_cmds = program(from, first);
    assert(program(from, first.drop_last()) =~= Seq::<Command>::empty());
    assert(final_bank(from, first.drop_last()) == from);
    assert(first.last() == s[0]);
    assert(first_cmds =~= access_commands(from, s[0]));
    assert(first_cmds[first_cmds.len() - 1] == access_command(s[0]));
    let c = program(from, s);
    assert(c =~= first_cmds.push(access_command(s[1])));
}

/// The command that reads `len` bytes of buffer memory back to the issuer.
pub open spec fn read_buffer(len: usize) -> Command {
    Command::ReadBuffer(command_byte(Op::RBM, BUFFER_MEMORY), len)
}

/// The value read from `reg` out of the three bytes clocked in during its
/// read command: the third after a dummy byte, the second otherwise.
pub open spec fn register_value(reg: ControlRegister, rx: [u8; 3]) -> u8 {
    if reg.spec_shifts_dummy_byte() {
        rx[2]
    } else {
        rx[1]
    }
}

/// The value of a register read out of the three bytes clocked in during the
/// read command.
pub fn control_value(reg: ControlRegister, rx: [u8; 3]) -> (r: u8)
    ensures
        r == register_value(reg, rx),
{
    if reg.shifts_dummy_byte() {
        rx[2]
    } else {
        rx[1]
    }
}

/// A 16-bit value from its low and high bytes.
pub fn combine_u16(lo: u8, hi: u8) -> (r: u16)
    ensures
        r == lo + hi * 256,
{
    let l = lo as u16;
    let h = hi as u16;
    assert(l < 256 && h < 256 ==> l | (h << 8) == l + h * 256) by (bit_vector);
    l | (h << 8)
}

/// The low byte of a 16-bit value.
pub fn low_byte(v: u16) -> (r: u8)
    ensures
        r == v % 256,
{
    assert(v & 0xff == v % 256) by (bit_vector);
    (v & 0xff) as u8
}

/// The high byte of a 16-bit value.
pub fn high_byte(v: u16) -> (r: u8)
    ensures
        r == v / 256,
{
    assert(v >> 8 == v / 256) by (bit_vector);
    (v >> 8) as u8
}

/// A write of `data` into `reg`.
pub fn write_access(reg: Register, data: u8) -> (r: Access)
    ensures
        r == wcr(reg, data),
{
    Access { op: Op::WCR, reg: reg.descriptor(), data }
}

/// A read of `reg`.
pub fn read_access(reg: Register) -> (r: Access)
    ensures
        r == rcr(reg),
{
    Access { op: Op::RCR, reg: reg.descriptor(), data: 0 }
}

/// A bit set of `mask` in `reg`.
pub fn set_access(reg: Register, mask: u8) -> (r: Access)
    ensures
        r == bfs(reg, mask),
{
    Access { op: Op::BFS, reg: reg.descriptor(), data: mask }
}

/// A bit clear of `mask` in `reg`.
pub fn clear_access(reg: Register, mask: u8) -> (r: Access)
    ensures
        r == bfc(reg, mask),
{
    Access { op: Op::BFC, reg: reg.descriptor(), data: mask }
}

/// The command that reads `len` bytes of buffer memory back to the issuer.
pub fn mem_read(len: usize) -> (r: Command)
    ensures
        r == read_buffer(len),
{
    Command::ReadBuffer(READ_BUFFER_OPCODE, len)
}

/// The command that writes `data` into buffer memory.
pub fn mem_write(data: Vec<u8>) -> (r: Command)
    ensures
        r matches Command::WriteBuffer(op, d) && op == command_byte(Op::WBM, BUFFER_MEMORY) && d@ == data@,
{
    Command::WriteBuffer(WRITE_BUFFER_OPCODE, data)
}

} // verus!
