use std::collections::HashMap;
use std::collections::VecDeque;

use enc28j60::command::{combine_u16, control_value, mem_read, mem_write, Access, Command};
use enc28j60::device::{Enc28j60, Event, Step};
use enc28j60::network::{
    receive_outcome, transmit_outcome, EtherType, MacAddress, ReceiveError, TransmitError,
};
use enc28j60::register::{Bank, Op, PhyRegister, Register, PHCON1, PHCON2};

/// A simulated ENC28J60 on the other side of the bus. It records the bytes
/// shifted out in each transaction, keeps the register file and the buffer
/// memory, and answers register reads from queued values where some are
/// given, else from the register file.
struct SimDevice {
    banked: [[u8; 32]; 4],
    global: [u8; 32],
    mem: Vec<u8>,
    read_ptr: usize,
    queued: HashMap<(u8, u8), VecDeque<u8>>,
    log: Vec<Vec<u8>>,
    written: Vec<u8>,
    fail_at: Option<usize>,
}

fn has_dummy_byte(bank: u8, addr: u8) -> bool {
    (bank == 2 && addr < 0x1b) || (bank == 3 && (addr <= 0x05 || addr == 0x0a))
}

impl SimDevice {
    fn new() -> Self {
        SimDevice {
            banked: [[0; 32]; 4],
            global: [0; 32],
            mem: vec![0; 8192],
            read_ptr: 0,
            queued: HashMap::new(),
            log: Vec::new(),
            written: Vec::new(),
            fail_at: None,
        }
    }

    fn bank(&self) -> u8 {
        self.global[0x1f] & 0b11
    }

    fn reg(&mut self, addr: u8) -> &mut u8 {
        if addr >= 0x1b {
            &mut self.global[addr as usize]
        } else {
            let b = self.bank() as usize;
            &mut self.banked[b][addr as usize]
        }
    }

    fn set(&mut self, r: Register, v: u8) {
        let d = r.descriptor();
        match d.bank {
            None => self.global[d.addr as usize] = v,
            Some(b) => self.banked[b.number() as usize][d.addr as usize] = v,
        }
    }

    fn get(&self, r: Register) -> u8 {
        let d = r.descriptor();
        match d.bank {
            None => self.global[d.addr as usize],
            Some(b) => self.banked[b.number() as usize][d.addr as usize],
        }
    }

    fn queue(&mut self, r: Register, values: &[u8]) {
        let d = r.descriptor();
        let b = match d.bank {
            None => 0xff,
            Some(b) => b.number(),
        };
        self.queued.entry((b, d.addr)).or_default().extend(values.iter().copied());
    }

    fn read_register(&mut self, addr: u8) -> u8 {
        let key = (if addr >= 0x1b { 0xff } else { self.bank() }, addr);
        if let Some(q) = self.queued.get_mut(&key) {
            if let Some(v) = q.pop_front() {
                return v;
            }
        }
        *self.reg(addr)
    }

    fn reads_of(&self, first: u8) -> usize {
        self.log.iter().filter(|c| c.len() == 2 && c[0] == first && c[1] == 0).count()
    }

    /// Performs one command; `None` when the bus fails.
    fn exec(&mut self, cmd: &Command, buf: &mut [u8]) -> Option<Event> {
        if self.fail_at == Some(self.log.len()) {
            return None;
        }
        match cmd {
            Command::Byte(b) => {
                self.log.push(vec![*b]);
                Some(Event::Sent)
            }
            Command::Write(op, d) => {
                self.log.push(vec![*op, *d]);
                let addr = op & 0x1f;
                match op >> 5 {
                    0b010 => *self.reg(addr) = *d,
                    0b100 => *self.reg(addr) |= *d,
                    0b101 => *self.reg(addr) &= !*d,
                    _ => panic!("unexpected opcode {op:#x}"),
                }
                Some(Event::Sent)
            }
            Command::Read(op) => {
                self.log.push(vec![*op, 0]);
                let addr = op & 0x1f;
                let v = self.read_register(addr);
                if addr < 0x1b && has_dummy_byte(self.bank(), addr) {
                    Some(Event::Received([0xee, 0x55, v]))
                } else {
                    Some(Event::Received([0xee, v, 0x77]))
                }
            }
            Command::ReadBuffer(op, n) => {
                self.log.push(vec![*op]);
                let d = self.mem[self.read_ptr..self.read_ptr + n].to_vec();
                self.read_ptr += n;
                Some(Event::Data(d))
            }
            Command::ReadPayload(op, n) => {
                self.log.push(vec![*op]);
                buf[..*n].copy_from_slice(&self.mem[self.read_ptr..self.read_ptr + n]);
                self.read_ptr += n;
                Some(Event::Sent)
            }
            Command::Skip(op, n) => {
                self.log.push(vec![*op]);
                self.read_ptr += n;
                Some(Event::Sent)
            }
            Command::WriteBuffer(op, d) => {
                let mut l = vec![*op];
                l.extend_from_slice(d);
                self.log.push(l);
                self.written.extend_from_slice(d);
                Some(Event::Sent)
            }
        }
    }

    /// Runs a procedure to its end; `None` when it fails.
    fn run<T>(
        &mut self,
        dev: &mut Enc28j60,
        buf: &mut [u8],
        mut step: impl FnMut(&mut Enc28j60, Event) -> Step<T>,
    ) -> Option<T> {
        let mut event = Event::Sent;
        for _ in 0..10_000 {
            match step(dev, event) {
                Step::Issue(cmds) => {
                    event = Event::Sent;
                    for c in cmds.iter() {
                        match self.exec(c, buf) {
                            Some(e) => event = e,
                            None => {
                                event = Event::Failed;
                                break;
                            }
                        }
                    }
                }
                Step::Pause(_) => event = Event::Sent,
                Step::Finished(t) => return Some(t),
                Step::Failed => return None,
            }
        }
        panic!("procedure did not finish");
    }
}

const ALL_REGISTERS: [Register; 45] = [
    Register::EIE,
    Register::EIR,
    Register::ESTAT,
    Register::ECON2,
    Register::ECON1,
    Register::ERDPTL,
    Register::ERDPTH,
    Register::EWRPTL,
    Register::EWRPTH,
    Register::ETXSTL,
    Register::ETXSTH,
    Register::ETXNDL,
    Register::ETXNDH,
    Register::ERXSTL,
    Register::ERXSTH,
    Register::ERXNDL,
    Register::ERXNDH,
    Register::ERXRDPTL,
    Register::ERXRDPTH,
    Register::ERXWRPTL,
    Register::ERXWRPTH,
    Register::ERXFCON,
    Register::EPKTCNT,
    Register::MACON1,
    Register::MACON3,
    Register::MACON4,
    Register::MABBIPG,
    Register::MAIPGL,
    Register::MAIPGH,
    Register::MAMXFLL,
    Register::MAMXFLH,
    Register::MICMD,
    Register::MIREGADR,
    Register::MIWRL,
    Register::MIWRH,
    Register::MIRDL,
    Register::MIRDH,
    Register::MAADR5,
    Register::MAADR6,
    Register::MAADR3,
    Register::MAADR4,
    Register::MAADR1,
    Register::MAADR2,
    Register::MISTAT,
    Register::EREVID,
];

const ALL_OPS: [(Op, u8); 6] =
    [(Op::RCR, 0), (Op::RBM, 1), (Op::WCR, 2), (Op::WBM, 3), (Op::BFS, 4), (Op::BFC, 5)];

fn bytes_of(cmds: &[Command]) -> Vec<Vec<u8>> {
    let mut d = SimDevice::new();
    let mut buf = [0u8; 0];
    for c in cmds {
        if let Command::ReadPayload(op, _) = c {
            d.log.push(vec![*op]);
        } else {
            d.exec(c, &mut buf);
        }
    }
    d.log
}

#[test]
fn opcode_is_op_then_address() {
    for r in ALL_REGISTERS {
        let d = r.descriptor();
        for (op, bits) in ALL_OPS {
            assert_eq!(d.opcode(op), (bits << 5) | (d.addr & 0x1f));
        }
        assert!(d.addr() < 32);
    }
    assert_eq!(Register::ECON1.descriptor().opcode(Op::BFS), 0x9f);
    assert_eq!(Register::EREVID.descriptor().opcode(Op::RCR), 0x12);
    assert!(matches!(mem_read(6), Command::ReadBuffer(0x3a, 6)));
    match mem_write(vec![1, 2]) {
        Command::WriteBuffer(op, d) => {
            assert_eq!(op, (3 << 5) | 0x1a);
            assert_eq!(d, vec![1, 2]);
        }
        _ => panic!("not a buffer write"),
    }
}

#[test]
fn dummy_byte_on_mac_and_mii_reads() {
    let rx = [0x11, 0x22, 0x33];
    assert_eq!(control_value(Register::EPKTCNT.descriptor(), rx), 0x22);
    assert_eq!(control_value(Register::ESTAT.descriptor(), rx), 0x22);
    assert_eq!(control_value(Register::EREVID.descriptor(), rx), 0x22);
    assert_eq!(control_value(Register::MACON1.descriptor(), rx), 0x33);
    assert_eq!(control_value(Register::MISTAT.descriptor(), rx), 0x33);
    assert_eq!(control_value(Register::MAADR1.descriptor(), rx), 0x33);
    assert!(Register::MICMD.descriptor().shifts_dummy_byte());
    assert!(!Register::ERXFCON.descriptor().shifts_dummy_byte());
}

#[test]
fn bank_switch_only_on_first_access_to_a_bank() {
    let mut dev = Enc28j60::new();
    let first = bytes_of(&dev.read_control(Register::MACON1.descriptor()));
    assert_eq!(first, vec![vec![0xbf, 0x03], vec![0x9f, 0x02], vec![0x00, 0x00]]);
    assert_eq!(dev.current_bank(), Bank::Bank2);
    let second = bytes_of(&dev.write_control(Register::MACON3.descriptor(), 0x33));
    assert_eq!(second, vec![vec![0x42, 0x33]]);
    let third = bytes_of(&dev.read_control(Register::MIRDL.descriptor()));
    assert_eq!(third, vec![vec![0x18, 0x00]]);
    let global = bytes_of(&dev.bit_set(Register::ECON2.descriptor(), 0x80));
    assert_eq!(global, vec![vec![0x9e, 0x80]]);
    assert_eq!(dev.current_bank(), Bank::Bank2);
}

#[test]
fn global_registers_never_switch() {
    let mut dev = Enc28j60::new();
    for r in [Register::EIE, Register::EIR, Register::ESTAT, Register::ECON2, Register::ECON1] {
        assert_eq!(dev.read_control(r.descriptor()).len(), 1);
        assert_eq!(dev.bit_clear(r.descriptor(), 1).len(), 1);
    }
    assert_eq!(dev.current_bank(), Bank::Bank0);
    let mut dev = Enc28j60::new();
    dev.write_control(Register::EREVID.descriptor(), 0);
    assert_eq!(dev.read_control(Register::ESTAT.descriptor()).len(), 1);
    assert_eq!(dev.current_bank(), Bank::Bank3);
}

#[test]
fn bank_zero_selected_after_reset() {
    let mut dev = Enc28j60::new();
    dev.read_control(Register::MISTAT.descriptor());
    assert_eq!(dev.current_bank(), Bank::Bank3);
    dev.assume_reset();
    assert_eq!(dev.current_bank(), Bank::Bank0);
    assert!(matches!(dev.reset_via_spi(), Command::Byte(0xff)));
}

#[test]
fn sixteen_bit_writes_low_byte_first() {
    let mut dev = Enc28j60::new();
    let mut cmds = Vec::new();
    dev.write_u16(
        &mut cmds,
        Register::ERXRDPTL.descriptor(),
        Register::ERXRDPTH.descriptor(),
        0x1234,
    );
    assert_eq!(bytes_of(&cmds), vec![vec![0x4c, 0x34], vec![0x4d, 0x12]]);
    assert_eq!(combine_u16(0x34, 0x12), 0x1234);
    assert_eq!(combine_u16(0xff, 0x0f), 0x0fff);
}

#[test]
fn run_executes_accesses_in_order() {
    let mut dev = Enc28j60::new();
    let accesses = vec![
        Access { op: Op::WCR, reg: Register::MACON1.descriptor(), data: 1 },
        Access { op: Op::BFS, reg: Register::ECON1.descriptor(), data: 4 },
        Access { op: Op::RCR, reg: Register::ERXFCON.descriptor(), data: 0 },
    ];
    let cmds = dev.run(&accesses);
    assert_eq!(
        bytes_of(&cmds),
        vec![
            vec![0xbf, 0x03],
            vec![0x9f, 0x02],
            vec![0x40, 0x01],
            vec![0x9f, 0x04],
            vec![0xbf, 0x03],
            vec![0x9f, 0x01],
            vec![0x18, 0x00],
        ]
    );
}

#[test]
fn write_phy_goes_through_mii() {
    let mut dev = Enc28j60::new();
    let cmds = dev.write_phy(PhyRegister::new(PHCON2), 0x0100);
    assert_eq!(
        bytes_of(&cmds),
        vec![
            vec![0xbf, 0x03],
            vec![0x9f, 0x02],
            vec![0x54, 0x10],
            vec![0x56, 0x00],
            vec![0x57, 0x01],
        ]
    );
}

#[test]
fn read_phy_polls_busy_then_reads_low_and_high() {
    let mut sim = SimDevice::new();
    sim.queue(Register::MISTAT, &[1, 1, 0]);
    sim.set(Register::MIRDL, 0x34);
    sim.set(Register::MIRDH, 0x12);
    let mut dev = Enc28j60::new();
    let mut proc = dev.read_phy(PhyRegister::new(0x11));
    let v = sim.run(&mut dev, &mut [], |d, e| proc.step(d, e));
    assert_eq!(v, Some(0x1234));
    assert_eq!(sim.reads_of(0x0a), 3);
    let micmd: Vec<&Vec<u8>> = sim.log.iter().filter(|c| c[0] == 0x52).collect();
    assert_eq!(micmd, vec![&vec![0x52, 0x01], &vec![0x52, 0x00]]);
    assert_eq!(sim.log[2], vec![0x54, 0x11]);
}

fn init_config_log() -> Vec<Vec<u8>> {
    vec![
        vec![0x9e, 0x80],
        vec![0xbf, 0x03],
        vec![0x9f, 0x00],
        vec![0x48, 0x00],
        vec![0x49, 0x00],
        vec![0x4a, 0xff],
        vec![0x4b, 0x0f],
        vec![0x4c, 0x00],
        vec![0x4d, 0x00],
        vec![0x44, 0x00],
        vec![0x45, 0x10],
        vec![0xbf, 0x03],
        vec![0x9f, 0x02],
        vec![0x40, 0x01],
        vec![0x42, 0x33],
        vec![0x4a, 0xee],
        vec![0x4b, 0x05],
        vec![0x44, 0x15],
        vec![0x46, 0x06],
        vec![0xbf, 0x03],
        vec![0x9f, 0x03],
        vec![0x44, 0xff],
        vec![0x45, 0xca],
        vec![0x42, 0xde],
        vec![0x43, 0xee],
        vec![0x40, 0xff],
        vec![0x41, 0xc0],
        vec![0xbf, 0x03],
        vec![0x9f, 0x01],
        vec![0x58, 0x00],
        vec![0xbf, 0x03],
        vec![0x9f, 0x02],
        vec![0x54, 0x00],
        vec![0x56, 0x00],
        vec![0x57, 0x01],
        vec![0x54, 0x10],
        vec![0x56, 0x00],
        vec![0x57, 0x01],
        vec![0x5b, 0xc0],
        vec![0x5f, 0x04],
    ]
}

#[test]
fn init_recipe_in_order() {
    let mut sim = SimDevice::new();
    sim.set(Register::EREVID, 0x04);
    sim.queue(Register::ESTAT, &[0x00, 0x01]);
    let mut dev = Enc28j60::new();
    let mut proc = dev.initialize();
    assert_eq!(sim.run(&mut dev, &mut [], |d, e| proc.step(d, e)), Some(()));
    let mut expected = vec![
        vec![0xff],
        vec![0xbf, 0x03],
        vec![0x9f, 0x03],
        vec![0x12, 0x00],
        vec![0x1d, 0x00],
        vec![0x1d, 0x00],
    ];
    expected.extend(init_config_log());
    assert_eq!(sim.log, expected);
    assert_eq!(sim.get(Register::ERXNDL), 0xff);
    assert_eq!(sim.get(Register::ERXNDH), 0x0f);
    assert_eq!(sim.get(Register::ETXSTH), 0x10);
    assert_eq!(sim.get(Register::ECON1) & 0x04, 0x04);
}

#[test]
fn init_skips_clock_wait_on_listed_revisions() {
    for rev in [0x00u8, 0xff, 0x02, 0x08, 0x05, 0x06] {
        let mut sim = SimDevice::new();
        sim.set(Register::EREVID, rev);
        let mut dev = Enc28j60::new();
        let mut proc = dev.initialize();
        assert_eq!(sim.run(&mut dev, &mut [], |d, e| proc.step(d, e)), Some(()));
        assert_eq!(sim.reads_of(0x1d), 0, "revision {rev:#x}");
        assert_eq!(sim.log[4..].to_vec(), init_config_log());
    }
    for rev in [0x01u8, 0x03, 0x04, 0x07, 0x10] {
        let mut sim = SimDevice::new();
        sim.set(Register::EREVID, rev);
        sim.queue(Register::ESTAT, &[0x00, 0x00, 0x00, 0x01]);
        let mut dev = Enc28j60::new();
        let mut proc = dev.initialize();
        assert_eq!(sim.run(&mut dev, &mut [], |d, e| proc.step(d, e)), Some(()));
        assert_eq!(sim.reads_of(0x1d), 4, "revision {rev:#x}");
    }
    assert!(enc28j60::init::skip_clock_wait(0x06));
    assert!(!enc28j60::init::skip_clock_wait(0x04));
}

#[test]
fn init_fails_when_revision_read_fails() {
    let mut sim = SimDevice::new();
    sim.fail_at = Some(3);
    let mut dev = Enc28j60::new();
    let mut proc = dev.initialize();
    assert_eq!(sim.run(&mut dev, &mut [], |d, e| proc.step(d, e)), None);
    assert_eq!(sim.log, vec![vec![0xff], vec![0xbf, 0x03], vec![0x9f, 0x03]]);
    assert!(matches!(proc.step(&mut dev, Event::Sent), Step::Failed));
}

#[test]
fn init_leaves_bank_zero_selected() {
    let mut sim = SimDevice::new();
    sim.set(Register::EREVID, 0x06);
    let mut dev = Enc28j60::new();
    let mut proc = dev.initialize();
    assert_eq!(sim.run(&mut dev, &mut [], |d, e| proc.step(d, e)), Some(()));
    assert_eq!(dev.current_bank(), Bank::Bank0);
    assert_eq!(sim.bank(), 0);
    let cmds = bytes_of(&dev.write_phy(PhyRegister::new(PHCON1), 0x0100));
    assert_eq!(cmds[0], vec![0xbf, 0x03]);
    assert_eq!(cmds[1], vec![0x9f, 0x02]);
}

#[test]
fn econ1_writes_update_the_bank_cache() {
    let mut dev = Enc28j60::new();
    dev.write_control(Register::ECON1.descriptor(), 0x06);
    assert_eq!(dev.current_bank(), Bank::Bank2);
    dev.bit_set(Register::ECON1.descriptor(), 0x09);
    assert_eq!(dev.current_bank(), Bank::Bank3);
    dev.bit_clear(Register::ECON1.descriptor(), 0x02);
    assert_eq!(dev.current_bank(), Bank::Bank1);
    dev.bit_set(Register::ECON1.descriptor(), 0x08);
    assert_eq!(dev.current_bank(), Bank::Bank1);
    assert_eq!(dev.read_control(Register::ERXFCON.descriptor()).len(), 1);
}

#[test]
fn init_fails_when_reset_command_fails() {
    let mut sim = SimDevice::new();
    sim.fail_at = Some(0);
    let mut dev = Enc28j60::new();
    let mut proc = dev.initialize();
    assert_eq!(sim.run(&mut dev, &mut [], |d, e| proc.step(d, e)), None);
}

fn put_packet(sim: &mut SimDevice, at: usize, next: u16, byte_count: u16, payload_len: usize) {
    sim.mem[at] = (next & 0xff) as u8;
    sim.mem[at + 1] = (next >> 8) as u8;
    sim.mem[at + 2] = (byte_count & 0xff) as u8;
    sim.mem[at + 3] = (byte_count >> 8) as u8;
    for i in 0..payload_len {
        sim.mem[at + 6 + i] = (i % 251) as u8 + 1;
    }
    sim.read_ptr = at;
}

fn ring(sim: &mut SimDevice) {
    sim.set(Register::ERXSTL, 0x00);
    sim.set(Register::ERXSTH, 0x00);
    sim.set(Register::ERXNDL, 0xff);
    sim.set(Register::ERXNDH, 0x0f);
}

#[test]
fn receive_with_empty_ring() {
    let mut sim = SimDevice::new();
    let mut dev = Enc28j60::new();
    let mut buf = [0u8; 64];
    let mut proc = dev.receive(buf.len());
    let n = sim.run(&mut dev, &mut buf, |d, e| proc.step(d, e));
    assert_eq!(n, Some(0));
    assert_eq!(sim.log, vec![vec![0xbf, 0x03], vec![0x9f, 0x01], vec![0x19, 0x00]]);
    assert_eq!(sim.read_ptr, 0);
}

#[test]
fn receive_normal_packet() {
    let mut sim = SimDevice::new();
    sim.set(Register::EPKTCNT, 1);
    ring(&mut sim);
    put_packet(&mut sim, 0, 0x0110, 64, 60);
    let mut dev = Enc28j60::new();
    let mut buf = [0u8; 128];
    let mut proc = dev.receive(buf.len());
    let n = sim.run(&mut dev, &mut buf, |d, e| proc.step(d, e));
    assert_eq!(n, Some(60));
    assert_eq!(sim.read_ptr, 66);
    assert_eq!(buf[..60].to_vec(), sim.mem[6..66].to_vec());
    assert_eq!(buf[60], 0);
    assert_eq!(sim.get(Register::ERXRDPTL), 0x0f);
    assert_eq!(sim.get(Register::ERXRDPTH), 0x01);
    let tail = sim.log[sim.log.len() - 3..].to_vec();
    assert_eq!(tail, vec![vec![0x4c, 0x0f], vec![0x4d, 0x01], vec![0x9e, 0x40]]);
    assert_eq!(receive_outcome(&Step::Finished(60)), Some(Ok(60)));
}

#[test]
fn receive_wraps_read_pointer_to_ring_end() {
    let mut sim = SimDevice::new();
    sim.set(Register::EPKTCNT, 1);
    ring(&mut sim);
    put_packet(&mut sim, 0x0800, 0x0000, 20, 16);
    let mut dev = Enc28j60::new();
    let mut buf = [0u8; 32];
    let mut proc = dev.receive(buf.len());
    let n = sim.run(&mut dev, &mut buf, |d, e| proc.step(d, e));
    assert_eq!(n, Some(16));
    assert_eq!(sim.get(Register::ERXRDPTL), 0xff);
    assert_eq!(sim.get(Register::ERXRDPTH), 0x0f);
}

#[test]
fn receive_truncates_and_drains() {
    let mut sim = SimDevice::new();
    sim.set(Register::EPKTCNT, 1);
    ring(&mut sim);
    put_packet(&mut sim, 0, 0x00d2, 204, 200);
    let mut dev = Enc28j60::new();
    let mut buf = [0u8; 100];
    let mut proc = dev.receive(buf.len());
    let n = sim.run(&mut dev, &mut buf, |d, e| proc.step(d, e));
    assert_eq!(n, Some(100));
    assert_eq!(sim.read_ptr, 6 + 200);
    assert_eq!(buf.to_vec(), sim.mem[6..106].to_vec());
    assert_eq!(sim.get(Register::ERXRDPTL), 0xd1);
    assert_eq!(sim.get(Register::ERXRDPTH), 0x00);
}

#[test]
fn receive_into_empty_buffer_drains_whole_packet() {
    let mut sim = SimDevice::new();
    sim.set(Register::EPKTCNT, 1);
    ring(&mut sim);
    put_packet(&mut sim, 0, 0x0050, 70, 66);
    let mut dev = Enc28j60::new();
    let mut buf = [0u8; 0];
    let mut proc = dev.receive(0);
    let n = sim.run(&mut dev, &mut buf, |d, e| proc.step(d, e));
    assert_eq!(n, Some(0));
    assert_eq!(sim.read_ptr, 72);
}

#[test]
fn receive_runt_count_copies_nothing() {
    let mut sim = SimDevice::new();
    sim.set(Register::EPKTCNT, 2);
    ring(&mut sim);
    put_packet(&mut sim, 0, 0x0008, 3, 0);
    let mut dev = Enc28j60::new();
    let mut buf = [0u8; 16];
    let mut proc = dev.receive(buf.len());
    let n = sim.run(&mut dev, &mut buf, |d, e| proc.step(d, e));
    assert_eq!(n, Some(0));
    assert_eq!(sim.read_ptr, 6);
    assert_eq!(sim.get(Register::ERXRDPTL), 0x07);
    assert_eq!(sim.get(Register::EPKTCNT), 2);
}

#[test]
fn receive_bus_failure_is_device_error() {
    let mut sim = SimDevice::new();
    sim.set(Register::EPKTCNT, 1);
    ring(&mut sim);
    put_packet(&mut sim, 0, 0x0110, 64, 60);
    sim.fail_at = Some(4);
    let mut dev = Enc28j60::new();
    let mut buf = [0u8; 128];
    let mut proc = dev.receive(buf.len());
    let mut last = Step::Failed;
    let mut event = Event::Sent;
    for _ in 0..100 {
        let s = proc.step(&mut dev, event);
        match &s {
            Step::Issue(cmds) => {
                event = Event::Sent;
                for c in cmds.iter() {
                    match sim.exec(c, &mut buf) {
                        Some(e) => event = e,
                        None => {
                            event = Event::Failed;
                            break;
                        }
                    }
                }
            }
            _ => {
                last = s;
                break;
            }
        }
    }
    assert_eq!(receive_outcome(&last), Some(Err(ReceiveError::DeviceError)));
    assert!(matches!(proc.step(&mut dev, Event::Sent), Step::Failed));
}

#[test]
fn transmit_frame_layout() {
    let mut sim = SimDevice::new();
    sim.set(Register::ETXSTL, 0x00);
    sim.set(Register::ETXSTH, 0x10);
    sim.queue(Register::ECON1, &[0x08, 0x08, 0x00]);
    let dst = [1, 2, 3, 4, 5, 6];
    let src = [0xa, 0xb, 0xc, 0xd, 0xe, 0xf];
    let mut dev = Enc28j60::new();
    let mut proc = dev.transmit_frame(
        &MacAddress(dst),
        &MacAddress(src),
        EtherType::new(enc28j60::network::IPV4),
        &[0xde, 0xad],
    );
    let r = sim.run(&mut dev, &mut [], |d, e| proc.step(d, e));
    assert_eq!(r, Some(false));
    assert_eq!(
        sim.log,
        vec![
            vec![0x04, 0x00],
            vec![0x05, 0x00],
            vec![0x42, 0x00],
            vec![0x43, 0x10],
            vec![0x7a, 0x00],
            vec![0x7a, 1, 2, 3, 4, 5, 6],
            vec![0x7a, 0xa, 0xb, 0xc, 0xd, 0xe, 0xf],
            vec![0x7a, 0x08, 0x00, 0xde, 0xad],
            vec![0x46, 0x10],
            vec![0x47, 0x10],
            vec![0xbc, 0x08],
            vec![0x9f, 0x08],
            vec![0x1f, 0x00],
            vec![0x1f, 0x00],
            vec![0x1f, 0x00],
            vec![0x1d, 0x00],
        ]
    );
    assert_eq!(
        sim.written,
        vec![0x00, 1, 2, 3, 4, 5, 6, 0xa, 0xb, 0xc, 0xd, 0xe, 0xf, 0x08, 0x00, 0xde, 0xad]
    );
    assert_eq!(transmit_outcome(&Step::Finished(false)), Some(Ok(())));
}

#[test]
fn transmit_abort_is_cleared_and_reported_sent() {
    let mut sim = SimDevice::new();
    sim.set(Register::ETXSTL, 0x00);
    sim.set(Register::ETXSTH, 0x10);
    sim.queue(Register::ECON1, &[0x00]);
    sim.set(Register::ESTAT, 0x02);
    let mut dev = Enc28j60::new();
    let mut proc = dev.transmit([0xff; 6], [1; 6], vec![0x08, 0x06, 1, 2, 3]);
    let r = sim.run(&mut dev, &mut [], |d, e| proc.step(d, e));
    assert_eq!(r, Some(true));
    assert_eq!(sim.log.last().unwrap(), &vec![0xbd, 0x02]);
    assert_eq!(sim.get(Register::ESTAT) & 0x02, 0);
    assert_eq!(sim.get(Register::ETXNDL), 0x11);
    assert_eq!(transmit_outcome(&Step::Finished(true)), Some(Ok(())));
    assert_eq!(transmit_outcome(&Step::Failed), Some(Err(TransmitError::DeviceError)));
    assert_eq!(transmit_outcome(&Step::Pause(1)), None);
}

#[test]
fn transmit_end_pointer_wraps_at_sixteen_bits() {
    let mut sim = SimDevice::new();
    sim.set(Register::ETXSTL, 0xfa);
    sim.set(Register::ETXSTH, 0xff);
    sim.queue(Register::ECON1, &[0x00]);
    let mut dev = Enc28j60::new();
    let mut proc = dev.transmit([0; 6], [0; 6], vec![0; 10]);
    assert_eq!(sim.run(&mut dev, &mut [], |d, e| proc.step(d, e)), Some(false));
    assert_eq!(sim.get(Register::ETXNDL), 0x10);
    assert_eq!(sim.get(Register::ETXNDH), 0x00);
}

#[test]
fn pins_down_register_descriptors() {
    let d = Register::MAADR1.descriptor();
    assert_eq!(d.addr(), 0x04);
    assert_eq!(d.bank(), Some(Bank::Bank3));
    assert_eq!(Register::ESTAT.descriptor().bank(), None);
    assert_eq!(PhyRegister::new(0x34).addr(), 0x14);
    assert_eq!(PhyRegister::new(PHCON1).addr(), 0);
    assert_eq!(enc28j60::register::bank_from_u8(2), Bank::Bank2);
    assert_eq!(Bank::Bank3.number(), 3);
    let g = enc28j60::register::ControlRegister::global(0x3d);
    assert_eq!(g.addr(), 0x1d);
    let b = enc28j60::register::ControlRegister::banked(
        0x19,
        Bank::Bank1,
        enc28j60::register::Block::Eth,
    );
    assert_eq!(b, Register::EPKTCNT.descriptor());
}
