use vstd::prelude::*;

use crate::fault::Fault;
use crate::flags::{
    add8, add_spec, bit, flags_of, flags_of_psw, psw_byte, sub8, sub_spec, Flags,
};
use crate::instructions::{decode, word, AluOp, Cond, Instruction, Pair, Reg, StackPair};

verus! {

/// Bytes of memory that a new processor has.
pub const MEMORY_SIZE: usize = 0x4000;

/// A request to the port devices that IN or OUT leaves for the host.
#[derive(Clone, Copy, PartialEq, Eq, Structural, Debug)]
pub enum PortAccess {
    /// IN: the host reads a byte from `port` and puts it into the accumulator.
    Read { port: u8 },
    /// OUT: the host writes `value` to `port`.
    Write { port: u8, value: u8 },
}

/// The state of an 8080 between two instructions.
pub struct Cpu {
    pub a: u8,
    pub b: u8,
    pub c: u8,
    pub d: u8,
    pub e: u8,
    pub h: u8,
    pub l: u8,
    pub sp: u16,
    pub pc: u16,
    pub memory: Vec<u8>,
    pub flags: Flags,
    pub halted: bool,
    pub interrupts_enabled: bool,
}

/// The mathematical value of a `Cpu`: its registers, flags and memory.
pub struct CpuState {
    pub a: u8,
    pub b: u8,
    pub c: u8,
    pub d: u8,
    pub e: u8,
    pub h: u8,
    pub l: u8,
    pub sp: u16,
    pub pc: u16,
    pub mem: Seq<u8>,
    pub flags: Flags,
    pub halted: bool,
    pub interrupts_enabled: bool,
}

impl View for Cpu {
    type V = CpuState;

    open spec fn view(&self) -> CpuState {
        CpuState {
            a: self.a,
            b: self.b,
            c: self.c,
            d: self.d,
            e: self.e,
            h: self.h,
            l: self.l,
            sp: self.sp,
            pc: self.pc,
            mem: self.memory@,
            flags: self.flags,
            halted: self.halted,
            interrupts_enabled: self.interrupts_enabled,
        }
    }
}

/// High byte of a 16-bit value.
pub open spec fn hi(v: u16) -> u8 {
    (v / 256) as u8
}

/// Low byte of a 16-bit value.
pub open spec fn lo(v: u16) -> u8 {
    (v % 256) as u8
}

/// Whether a condition holds of the flags.
pub open spec fn cond_holds(f: Flags, c: Cond) -> bool {
    match c {
        Cond::NotZero => !f.z,
        Cond::Zero => f.z,
        Cond::NoCarry => !f.cy,
        Cond::Carry => f.cy,
        Cond::ParityOdd => !f.p,
        Cond::ParityEven => f.p,
        Cond::Plus => !f.s,
        Cond::Minus => f.s,
    }
}

/// The new accumulator and flags of an accumulator operation with operand `v`.
pub open spec fn alu_spec(op: AluOp, a: u8, v: u8, f: Flags) -> (u8, Flags) {
    match op {
        AluOp::Add => add_spec(a, v, false),
        AluOp::Adc => add_spec(a, v, f.cy),
        AluOp::Sub => sub_spec(a, v, false),
        AluOp::Sbb => sub_spec(a, v, f.cy),
        AluOp::Ana => (a & v, flags_of(a & v, false, false)),
        AluOp::Xra => (a ^ v, flags_of(a ^ v, false, false)),
        AluOp::Ora => (a | v, flags_of(a | v, false, false)),
        AluOp::Cmp => (a, sub_spec(a, v, false).1),
    }
}

/// The accumulator and flags after DAA: the BCD correction of the accumulator.
pub open spec fn daa_spec(a: u8, f: Flags) -> (u8, Flags) {
    let low = a % 16;
    let high = a / 16;
    let fix_low = f.ac || low > 9;
    let fix_high = f.cy || high > 9 || (high >= 9 && low > 9);
    let corr = (if fix_low { 6int } else { 0 }) + (if fix_high { 0x60int } else { 0 });
    let v = ((a + corr) % 256) as u8;
    (v, flags_of(v, fix_high, low as int + (if fix_low { 6int } else { 0 }) > 15))
}

impl CpuState {
    /// The H/L pair, the address of the operand `M`.
    pub open spec fn hl(self) -> u16 {
        word(self.l, self.h)
    }

    /// The value of a register pair.
    pub open spec fn pair(self, p: Pair) -> u16 {
        match p {
            Pair::BC => word(self.c, self.b),
            Pair::DE => word(self.e, self.d),
            Pair::HL => word(self.l, self.h),
            Pair::SP => self.sp,
        }
    }

    /// The state with a register pair set to `v`.
    pub open spec fn set_pair(self, p: Pair, v: u16) -> CpuState {
        match p {
            Pair::BC => CpuState { b: hi(v), c: lo(v), ..self },
            Pair::DE => CpuState { d: hi(v), e: lo(v), ..self },
            Pair::HL => CpuState { h: hi(v), l: lo(v), ..self },
            Pair::SP => CpuState { sp: v, ..self },
        }
    }

    /// The value that PUSH stores for a stack pair; PSW is the accumulator over the flags.
    pub open spec fn stack_pair(self, p: StackPair) -> u16 {
        match p {
            StackPair::BC => word(self.c, self.b),
            StackPair::DE => word(self.e, self.d),
            StackPair::HL => word(self.l, self.h),
            StackPair::PSW => word(psw_byte(self.flags), self.a),
        }
    }

    /// The state after POP has put `v` into a stack pair.
    pub open spec fn set_stack_pair(self, p: StackPair, v: u16) -> CpuState {
        match p {
            StackPair::BC => CpuState { b: hi(v), c: lo(v), ..self },
            StackPair::DE => CpuState { d: hi(v), e: lo(v), ..self },
            StackPair::HL => CpuState { h: hi(v), l: lo(v), ..self },
            StackPair::PSW => CpuState { a: hi(v), flags: flags_of_psw(lo(v)), ..self },
        }
    }

    /// The fault of an access to `addr` by the current instruction.
    pub open spec fn out_of_bounds(self, addr: int) -> Fault {
        Fault::OutOfBounds { address: addr as usize, pc: self.pc as usize }
    }

    /// The byte at `addr`, or a fault outside the memory.
    pub open spec fn load(self, addr: int) -> Result<u8, Fault> {
        if addr < self.mem.len() {
            Ok(self.mem[addr])
        } else {
            Err(self.out_of_bounds(addr))
        }
    }

    /// The state with `v` stored at `addr`, or a fault outside the memory.
    pub open spec fn store(self, addr: int, v: u8) -> Result<CpuState, Fault> {
        if addr < self.mem.len() {
            Ok(CpuState { mem: self.mem.update(addr, v), ..self })
        } else {
            Err(self.out_of_bounds(addr))
        }
    }

    /// The value of an 8-bit operand.
    pub open spec fn read(self, r: Reg) -> Result<u8, Fault> {
        match r {
            Reg::B => Ok(self.b),
            Reg::C => Ok(self.c),
            Reg::D => Ok(self.d),
            Reg::E => Ok(self.e),
            Reg::H => Ok(self.h),
            Reg::L => Ok(self.l),
            Reg::M => self.load(self.hl() as int),
            Reg::A => Ok(self.a),
        }
    }

    /// The state with an 8-bit operand set to `v`.
    pub open spec fn write(self, r: Reg, v: u8) -> Result<CpuState, Fault> {
        match r {
            Reg::B => Ok(CpuState { b: v, ..self }),
            Reg::C => Ok(CpuState { c: v, ..self }),
            Reg::D => Ok(CpuState { d: v, ..self }),
            Reg::E => Ok(CpuState { e: v, ..self }),
            Reg::H => Ok(CpuState { h: v, ..self }),
            Reg::L => Ok(CpuState { l: v, ..self }),
            Reg::M => self.store(self.hl() as int, v),
            Reg::A => Ok(CpuState { a: v, ..self }),
        }
    }

    /// The state after pushing `v`: SP goes down by two and `v` is stored at SP,
    /// low byte first. SP must stay within the memory.
    pub open spec fn push(self, v: u16) -> Result<CpuState, Fault> {
        if 2 <= self.sp && self.sp as int <= self.mem.len() {
            Ok(
                CpuState {
                    sp: (self.sp - 2) as u16,
                    mem: self.mem.update(self.sp - 2, lo(v)).update(self.sp - 1, hi(v)),
                    ..self
                },
            )
        } else {
            Err(Fault::StackOutOfBounds { sp: self.sp as usize, pc: self.pc as usize })
        }
    }

    /// The value at SP and the state after popping it: SP goes up by two.
    pub open spec fn pop(self) -> Result<(u16, CpuState), Fault> {
        if self.sp + 2 <= self.mem.len() {
            Ok(
                (
                    word(self.mem[self.sp as int], self.mem[self.sp + 1]),
                    CpuState { sp: ((self.sp + 2) % 0x10000) as u16, ..self },
                ),
            )
        } else {
            Err(Fault::StackOutOfBounds { sp: self.sp as usize, pc: self.pc as usize })
        }
    }

    /// The state with PC at `target`, which must address the memory.
    pub open spec fn jump(self, target: u16) -> Result<CpuState, Fault> {
        if (target as int) < self.mem.len() {
            Ok(CpuState { pc: target, ..self })
        } else {
            Err(self.out_of_bounds(target as int))
        }
    }

    /// The state after a call to `target` that returns to `ret`.
    pub open spec fn call(self, ret: u16, target: u16) -> Result<CpuState, Fault> {
        if (target as int) < self.mem.len() {
            match self.push(ret) {
                Ok(s) => Ok(CpuState { pc: target, ..s }),
                Err(e) => Err(e),
            }
        } else {
            Err(self.out_of_bounds(target as int))
        }
    }

    /// The state after a return: PC is popped from the stack.
    pub open spec fn ret(self) -> Result<CpuState, Fault> {
        match self.pop() {
            Ok((v, s)) => s.jump(v),
            Err(e) => Err(e),
        }
    }

    /// The state with PC moved on by `n` bytes, modulo 2^16.
    pub open spec fn advance(self, n: nat) -> CpuState {
        CpuState { pc: ((self.pc + n) % 0x10000) as u16, ..self }
    }

    /// The state with the given flags.
    pub open spec fn with_flags(self, f: Flags) -> CpuState {
        CpuState { flags: f, ..self }
    }

    /// The state with the given accumulator and flags.
    pub open spec fn with_acc(self, a: u8, f: Flags) -> CpuState {
        CpuState { a, flags: f, ..self }
    }

    /// The carry flag replaced.
    pub open spec fn with_carry(self, cy: bool) -> CpuState {
        CpuState { flags: Flags { cy, ..self.flags }, ..self }
    }

    /// The state after one instruction of a running processor, or the fault
    /// that stops it.
    pub open spec fn effect(self, i: Instruction) -> Result<CpuState, Fault> {
        let n = i.byte_len();
        let next = self.advance(n);
        let ret_pc = next.pc;
        match i {
            Instruction::Nop => Ok(next),
            Instruction::Lxi(p, v) => Ok(next.set_pair(p, v)),
            Instruction::Dad(p) => {
                let sum = self.hl() + self.pair(p);
                Ok(next.set_pair(Pair::HL, (sum % 0x10000) as u16).with_carry(sum > 0xFFFF))
            },
            Instruction::Stax(p) => match self.store(self.pair(p) as int, self.a) {
                Ok(s) => Ok(s.advance(n)),
                Err(e) => Err(e),
            },
            Instruction::Ldax(p) => match self.load(self.pair(p) as int) {
                Ok(v) => Ok(CpuState { a: v, ..next }),
                Err(e) => Err(e),
            },
            Instruction::Shld(adr) => if adr + 1 < self.mem.len() {
                Ok(
                    CpuState {
                        mem: self.mem.update(adr as int, self.l).update(adr + 1, self.h),
                        ..next
                    },
                )
            } else {
                Err(self.out_of_bounds(adr + 1))
            },
            Instruction::Lhld(adr) => if adr + 1 < self.mem.len() {
                Ok(CpuState { l: self.mem[adr as int], h: self.mem[adr + 1], ..next })
            } else {
                Err(self.out_of_bounds(adr + 1))
            },
            Instruction::Sta(adr) => match self.store(adr as int, self.a) {
                Ok(s) => Ok(s.advance(n)),
                Err(e) => Err(e),
            },
            Instruction::Lda(adr) => match self.load(adr as int) {
                Ok(v) => Ok(CpuState { a: v, ..next }),
                Err(e) => Err(e),
            },
            Instruction::Inx(p) => Ok(next.set_pair(p, ((self.pair(p) + 1) % 0x10000) as u16)),
            Instruction::Dcx(p) => Ok(
                next.set_pair(p, ((self.pair(p) + 0xFFFF) % 0x10000) as u16),
            ),
            Instruction::Inr(r) => match self.read(r) {
                Ok(v) => {
                    let nv = ((v + 1) % 256) as u8;
                    match self.write(r, nv) {
                        Ok(s) => Ok(
                            s.with_flags(flags_of(nv, self.flags.cy, v % 16 == 15)).advance(n),
                        ),
                        Err(e) => Err(e),
                    }
                },
                Err(e) => Err(e),
            },
            Instruction::Dcr(r) => match self.read(r) {
                Ok(v) => {
                    let nv = ((v + 255) % 256) as u8;
                    match self.write(r, nv) {
                        Ok(s) => Ok(
                            s.with_flags(flags_of(nv, self.flags.cy, v % 16 != 0)).advance(n),
                        ),
                        Err(e) => Err(e),
                    }
                },
                Err(e) => Err(e),
            },
            Instruction::Mvi(r, v) => match self.write(r, v) {
                Ok(s) => Ok(s.advance(n)),
                Err(e) => Err(e),
            },
            Instruction::Rlc => Ok(
                CpuState {
                    a: ((self.a * 2) % 256 + self.a / 128) as u8,
                    ..next.with_carry(self.a >= 128)
                },
            ),
            Instruction::Rrc => Ok(
                CpuState {
                    a: (self.a / 2 + (self.a % 2) * 128) as u8,
                    ..next.with_carry(self.a % 2 == 1)
                },
            ),
            Instruction::Ral => Ok(
                CpuState {
                    a: ((self.a * 2) % 256 + bit(self.flags.cy)) as u8,
                    ..next.with_carry(self.a >= 128)
                },
            ),
            Instruction::Rar => Ok(
                CpuState {
                    a: (self.a / 2 + bit(self.flags.cy) * 128) as u8,
                    ..next.with_carry(self.a % 2 == 1)
                },
            ),
            Instruction::Daa => {
                let (v, f) = daa_spec(self.a, self.flags);
                Ok(next.with_acc(v, f))
            },
            Instruction::Cma => Ok(CpuState { a: (255 - self.a) as u8, ..next }),
            Instruction::Stc => Ok(next.with_carry(true)),
            Instruction::Cmc => Ok(next.with_carry(!self.flags.cy)),
            Instruction::Mov(dst, src) => match self.read(src) {
                Ok(v) => match self.write(dst, v) {
                    Ok(s) => Ok(s.advance(n)),
                    Err(e) => Err(e),
                },
                Err(e) => Err(e),
            },
            Instruction::Hlt => Ok(CpuState { halted: true, ..next }),
            Instruction::Alu(op, r) => match self.read(r) {
                Ok(v) => {
                    let (na, f) = alu_spec(op, self.a, v, self.flags);
                    Ok(next.with_acc(na, f))
                },
                Err(e) => Err(e),
            },
            Instruction::AluImm(op, v) => {
                let (na, f) = alu_spec(op, self.a, v, self.flags);
                Ok(next.with_acc(na, f))
            },
            Instruction::Rcond(c) => if cond_holds(self.flags, c) {
                self.ret()
            } else {
                Ok(next)
            },
            Instruction::Ret => self.ret(),
            Instruction::Pop(p) => match self.pop() {
                Ok((v, s)) => Ok(s.set_stack_pair(p, v).advance(n)),
                Err(e) => Err(e),
            },
            Instruction::Pchl => self.jump(self.hl()),
            Instruction::Sphl => Ok(CpuState { sp: self.hl(), ..next }),
            Instruction::Jcond(c, adr) => if cond_holds(self.flags, c) {
                self.jump(adr)
            } else {
                Ok(next)
            },
            Instruction::Jmp(adr) => self.jump(adr),
            Instruction::Out(_) => Ok(next),
            Instruction::In(_) => Ok(next),
            Instruction::Xthl => if self.sp + 1 < self.mem.len() {
                Ok(
                    CpuState {
                        l: self.mem[self.sp as int],
                        h: self.mem[self.sp + 1],
                        mem: self.mem.update(self.sp as int, self.l).update(
                            self.sp + 1,
                            self.h,
                        ),
                        ..next
                    },
                )
            } else {
                Err(self.out_of_bounds(self.sp + 1))
            },
            Instruction::Xchg => Ok(CpuState { d: self.h, e: self.l, h: self.d, l: self.e, ..next }),
            Instruction::Di => Ok(CpuState { interrupts_enabled: false, ..next }),
            Instruction::Ei => Ok(CpuState { interrupts_enabled: true, ..next }),
            Instruction::Ccond(c, adr) => if cond_holds(self.flags, c) {
                self.call(ret_pc, adr)
            } else {
                Ok(next)
            },
            Instruction::Call(adr) => self.call(ret_pc, adr),
            Instruction::Push(p) => match self.push(self.stack_pair(p)) {
                Ok(s) => Ok(s.advance(n)),
                Err(e) => Err(e),
            },
            Instruction::Rst(k) => self.call(ret_pc, (k * 8) as u16),
        }
    }

    /// The port access that an instruction asks of the host.
    pub open spec fn port_access(self, i: Instruction) -> Option<PortAccess> {
        match i {
            Instruction::Out(port) => Some(PortAccess::Write { port, value: self.a }),
            Instruction::In(port) => Some(PortAccess::Read { port }),
            _ => None,
        }
    }

    /// The effect of fetching and executing the instruction at the program counter.
    pub open spec fn next(self) -> Result<(CpuState, Option<PortAccess>), Fault> {
        if self.halted {
            Ok((self, None))
        } else {
            match decode(self.mem, self.pc as usize) {
                Ok((i, _)) => self.step(i),
                Err(e) => Err(e),
            }
        }
    }

    /// The state after an interrupt that asks for restart `k`: `None` while
    /// interrupts are disabled.
    pub open spec fn interrupt(self, k: u8) -> Result<Option<CpuState>, Fault> {
        if !self.interrupts_enabled {
            Ok(None)
        } else {
            match self.call(self.pc, (k * 8) as u16) {
                Ok(s) => Ok(Some(CpuState { halted: false, interrupts_enabled: false, ..s })),
                Err(e) => Err(e),
            }
        }
    }

    /// The effect of one instruction: the next state and the port access it asks
    /// for, or the fault that stops the processor. A halted processor stays as it is.
    pub open spec fn step(self, i: Instruction) -> Result<(CpuState, Option<PortAccess>), Fault> {
        if self.halted {
            Ok((self, None))
        } else {
            match self.effect(i) {
                Ok(s) => Ok((s, self.port_access(i))),
                Err(e) => Err(e),
            }
        }
    }
}

/// How a state-changing operation ended: in the state `s` names on success, and
/// with the state as it was on a fault.
pub open spec fn settles(before: CpuState, after: CpuState, r: Result<(), Fault>, s: Result<CpuState, Fault>) -> bool {
    match s {
        Ok(t) => r == Ok::<(), Fault>(()) && after == t,
        Err(e) => r == Err::<(), Fault>(e) && after == before,
    }
}

/// The memory with `data` copied into it from `address` on.
pub open spec fn loaded(mem: Seq<u8>, data: Seq<u8>, address: int) -> Seq<u8> {
    Seq::new(
        mem.len(),
        |j: int|
            if address <= j < address + data.len() {
                data[j - address]
            } else {
                mem[j]
            },
    )
}

fn alu(op: AluOp, a: u8, v: u8, f: Flags) -> (r: (u8, Flags))
    ensures
        r == alu_spec(op, a, v, f),
{
    match op {
        AluOp::Add => add8(a, v, false),
        AluOp::Adc => add8(a, v, f.cy),
        AluOp::Sub => sub8(a, v, false),
        AluOp::Sbb => sub8(a, v, f.cy),
        AluOp::Ana => {
            let x = a & v;
            (x, Flags::of(x, false, false))
        },
        AluOp::Xra => {
            let x = a ^ v;
            (x, Flags::of(x, false, false))
        },
        AluOp::Ora => {
            let x = a | v;
            (x, Flags::of(x, false, false))
        },
        AluOp::Cmp => {
            let (_, fl) = sub8(a, v, false);
            (a, fl)
        },
    }
}

fn daa(a: u8, f: Flags) -> (r: (u8, Flags))
    ensures
        r == daa_spec(a, f),
{
    let low = a % 16;
    let high = a / 16;
    let fix_low = f.ac || low > 9;
    let fix_high = f.cy || high > 9 || (high >= 9 && low > 9);
    let mut corr: u16 = 0;
    if fix_low {
        corr = 6;
    }
    if fix_high {
        corr = corr + 0x60;
    }
    let v = ((a as u16 + corr) % 256) as u8;
    let ac = low + (if fix_low { 6 } else { 0 }) > 15;
    (v, Flags::of(v, fix_high, ac))
}

fn condition(f: Flags, c: Cond) -> (r: bool)
    ensures
        r == cond_holds(f, c),
{
    match c {
        Cond::NotZero => !f.z,
        Cond::Zero => f.z,
        Cond::NoCarry => !f.cy,
        Cond::Carry => f.cy,
        Cond::ParityOdd => !f.p,
        Cond::ParityEven => f.p,
        Cond::Plus => !f.s,
        Cond::Minus => f.s,
    }
}

fn make_word(lo: u8, hi: u8) -> (w: u16)
    ensures
        w == word(lo, hi),
{
    hi as u16 * 256 + lo as u16
}

impl Cpu {
    /// A processor at power-on: registers, flags and memory all zero.
    pub fn new() -> (cpu: Cpu)
        ensures
            cpu@ == (CpuState {
                a: 0,
                b: 0,
                c: 0,
                d: 0,
                e: 0,
                h: 0,
                l: 0,
                sp: 0,
                pc: 0,
                mem: Seq::new(MEMORY_SIZE as nat, |j: int| 0u8),
                flags: Flags { z: false, s: false, p: false, cy: false, ac: false },
                halted: false,
                interrupts_enabled: false,
            }),
    {
        let mut memory: Vec<u8> = Vec::new();
        while memory.len() < MEMORY_SIZE
            invariant
                memory@.len() <= MEMORY_SIZE,
                forall|j: int| 0 <= j < memory@.len() ==> memory@[j] == 0u8,
            decreases MEMORY_SIZE - memory@.len(),
        {
            memory.push(0);
        }
        assert(memory@ =~= Seq::new(MEMORY_SIZE as nat, |j: int| 0u8));
        Cpu {
            a: 0,
            b: 0,
            c: 0,
            d: 0,
            e: 0,
            h: 0,
            l: 0,
            sp: 0,
            pc: 0,
            memory,
            flags: Flags::new(),
            halted: false,
            interrupts_enabled: false,
        }
    }

    /// Copies `data` into memory from `address` on. Data that would not fit is
    /// refused whole, with a fault at the first address past the memory.
    pub fn load(&mut self, data: &[u8], address: usize) -> (r: Result<(), Fault>)
        ensures
            address + data@.len() <= old(self)@.mem.len() ==> {
                &&& r == Ok::<(), Fault>(())
                &&& final(self)@ == (CpuState {
                    mem: loaded(old(self)@.mem, data@, address as int),
                    ..old(self)@
                })
            },
            address + data@.len() > old(self)@.mem.len() ==> {
                &&& r == Err::<(), Fault>(
                    Fault::OutOfBounds {
                        address: if address < old(self)@.mem.len() {
                            old(self)@.mem.len() as usize
                        } else {
                            address
                        },
                        pc: old(self).pc as usize,
                    },
                )
                &&& final(self)@ == old(self)@
            },
    {
        let n = self.memory.len();
        if address > n || data.len() > n - address {
            let first = if address < n { n } else { address };
            return Err(Fault::OutOfBounds { address: first, pc: self.pc as usize });
        }
        let mut i: usize = 0;
        while i < data.len()
            invariant
                address + data@.len() <= n,
                n == old(self)@.mem.len(),
                self@ == (CpuState { mem: self@.mem, ..old(self)@ }),
                self@.mem.len() == n,
                i <= data@.len(),
                forall|j: int|
                    0 <= j < n ==> self@.mem[j] == (if address <= j < address + i {
                        data@[j - address]
                    } else {
                        old(self)@.mem[j]
                    }),
            decreases data@.len() - i,
        {
            self.memory[address + i] = data[i];
            i = i + 1;
        }
        assert(self@.mem =~= loaded(old(self)@.mem, data@, address as int));
        Ok(())
    }

    /// Decodes the instruction at the program counter.
    pub fn fetch(&self) -> (r: Result<(Instruction, usize), Fault>)
        ensures
            r == decode(self@.mem, self.pc as usize),
    {
        Instruction::disassemble(self.memory.as_slice(), self.pc as usize)
    }

    fn pair(&self, p: Pair) -> (v: u16)
        ensures
            v == self@.pair(p),
    {
        match p {
            Pair::BC => make_word(self.c, self.b),
            Pair::DE => make_word(self.e, self.d),
            Pair::HL => make_word(self.l, self.h),
            Pair::SP => self.sp,
        }
    }

    fn set_pair(&mut self, p: Pair, v: u16)
        ensures
            final(self)@ == old(self)@.set_pair(p, v),
    {
        let high = (v / 256) as u8;
        let low = (v % 256) as u8;
        match p {
            Pair::BC => {
                self.b = high;
                self.c = low;
            },
            Pair::DE => {
                self.d = high;
                self.e = low;
            },
            Pair::HL => {
                self.h = high;
                self.l = low;
            },
            Pair::SP => {
                self.sp = v;
            },
        }
    }

    fn stack_pair(&self, p: StackPair) -> (v: u16)
        ensures
            v == self@.stack_pair(p),
    {
        match p {
            StackPair::BC => make_word(self.c, self.b),
            StackPair::DE => make_word(self.e, self.d),
            StackPair::HL => make_word(self.l, self.h),
            StackPair::PSW => make_word(self.flags.to_psw(), self.a),
        }
    }

    fn set_stack_pair(&mut self, p: StackPair, v: u16)
        ensures
            final(self)@ == old(self)@.set_stack_pair(p, v),
    {
        let high = (v / 256) as u8;
        let low = (v % 256) as u8;
        match p {
            StackPair::BC => {
                self.b = high;
                self.c = low;
            },
            StackPair::DE => {
                self.d = high;
                self.e = low;
            },
            StackPair::HL => {
                self.h = high;
                self.l = low;
            },
            StackPair::PSW => {
                self.a = high;
                self.flags = Flags::from_psw(low);
            },
        }
    }

    fn out_of_bounds(&self, addr: usize) -> (f: Fault)
        ensures
            f == self@.out_of_bounds(addr as int),
    {
        Fault::OutOfBounds { address: addr, pc: self.pc as usize }
    }

    fn load_byte(&self, addr: usize) -> (r: Result<u8, Fault>)
        ensures
            r == self@.load(addr as int),
    {
        if addr < self.memory.len() {
            Ok(self.memory[addr])
        } else {
            Err(self.out_of_bounds(addr))
        }
    }

    fn store_byte(&mut self, addr: usize, v: u8) -> (r: Result<(), Fault>)
        ensures
            settles(old(self)@, final(self)@, r, old(self)@.store(addr as int, v)),
    {
        if addr < self.memory.len() {
            self.memory[addr] = v;
            Ok(())
        } else {
            Err(self.out_of_bounds(addr))
        }
    }

    fn read_reg(&self, r: Reg) -> (v: Result<u8, Fault>)
        ensures
            v == self@.read(r),
    {
        match r {
            Reg::B => Ok(self.b),
            Reg::C => Ok(self.c),
            Reg::D => Ok(self.d),
            Reg::E => Ok(self.e),
            Reg::H => Ok(self.h),
            Reg::L => Ok(self.l),
            Reg::M => self.load_byte(make_word(self.l, self.h) as usize),
            Reg::A => Ok(self.a),
        }
    }

    fn write_reg(&mut self, r: Reg, v: u8) -> (res: Result<(), Fault>)
        ensures
            settles(old(self)@, final(self)@, res, old(self)@.write(r, v)),
    {
        match r {
            Reg::B => {
                self.b = v;
                Ok(())
            },
            Reg::C => {
                self.c = v;
                Ok(())
            },
            Reg::D => {
                self.d = v;
                Ok(())
            },
            Reg::E => {
                self.e = v;
                Ok(())
            },
            Reg::H => {
                self.h = v;
                Ok(())
            },
            Reg::L => {
                self.l = v;
                Ok(())
            },
            Reg::M => {
                let addr = make_word(self.l, self.h) as usize;
                self.store_byte(addr, v)
            },
            Reg::A => {
                self.a = v;
                Ok(())
            },
        }
    }

    /// Pushes a 16-bit value: SP goes down by two, and the value is stored at SP
    /// low byte first.
    fn push_stack(&mut self, value: u16) -> (r: Result<(), Fault>)
        ensures
            settles(old(self)@, final(self)@, r, old(self)@.push(value)),
    {
        let sp = self.sp as usize;
        if sp < 2 || sp > self.memory.len() {
            return Err(Fault::StackOutOfBounds { sp, pc: self.pc as usize });
        }
        self.memory[sp - 2] = (value % 256) as u8;
        self.memory[sp - 1] = (value / 256) as u8;
        self.sp = self.sp - 2;
        Ok(())
    }

    /// Pops a 16-bit value: it is read from SP low byte first, and SP goes up by two.
    fn pop_stack(&mut self) -> (r: Result<u16, Fault>)
        ensures
            match old(self)@.pop() {
                Ok((v, s)) => r == Ok::<u16, Fault>(v) && final(self)@ == s,
                Err(e) => r == Err::<u16, Fault>(e) && final(self)@ == old(self)@,
            },
    {
        let sp = self.sp as usize;
        if self.memory.len() < 2 || sp > self.memory.len() - 2 {
            return Err(Fault::StackOutOfBounds { sp, pc: self.pc as usize });
        }
        let value = make_word(self.memory[sp], self.memory[sp + 1]);
        self.sp = ((sp + 2) % 0x10000) as u16;
        Ok(value)
    }

    fn jump(&mut self, target: u16) -> (r: Result<(), Fault>)
        ensures
            settles(old(self)@, final(self)@, r, old(self)@.jump(target)),
    {
        if (target as usize) < self.memory.len() {
            self.pc = target;
            Ok(())
        } else {
            Err(self.out_of_bounds(target as usize))
        }
    }

    fn call(&mut self, ret: u16, target: u16) -> (r: Result<(), Fault>)
        ensures
            settles(old(self)@, final(self)@, r, old(self)@.call(ret, target)),
    {
        if (target as usize) >= self.memory.len() {
            return Err(self.out_of_bounds(target as usize));
        }
        match self.push_stack(ret) {
            Ok(()) => {
                self.pc = target;
                Ok(())
            },
            Err(e) => Err(e),
        }
    }

    fn ret(&mut self) -> (r: Result<(), Fault>)
        ensures
            settles(old(self)@, final(self)@, r, old(self)@.ret()),
    {
        let saved = self.sp;
        match self.pop_stack() {
            Ok(target) => {
                if (target as usize) < self.memory.len() {
                    self.pc = target;
                    Ok(())
                } else {
                    self.sp = saved;
                    Err(self.out_of_bounds(target as usize))
                }
            },
            Err(e) => Err(e),
        }
    }

    fn advance(&mut self, n: usize)
        requires
            n <= 3,
        ensures
            final(self)@ == old(self)@.advance(n as nat),
    {
        self.pc = ((self.pc as usize + n) % 0x10000) as u16;
    }

    /// Data transfer: MOV, MVI, LXI, LDA, STA, LHLD, SHLD, LDAX, STAX, XCHG, XTHL, SPHL.
    fn transfer(&mut self, i: Instruction) -> (r: Result<(), Fault>)
        requires
            is_transfer(i),
        ensures
            settles(old(self)@, final(self)@, r, old(self)@.effect(i)),
    {
        let n = i.length();
        match i {
            Instruction::Nop => {
                self.advance(n);
                Ok(())
            },
            Instruction::Lxi(p, v) => {
                self.set_pair(p, v);
                self.advance(n);
                Ok(())
            },
            Instruction::Stax(p) => {
                let addr = self.pair(p) as usize;
                let a = self.a;
                match self.store_byte(addr, a) {
                    Ok(()) => {
                        self.advance(n);
                        Ok(())
                    },
                    Err(e) => Err(e),
                }
            },
            Instruction::Ldax(p) => match self.load_byte(self.pair(p) as usize) {
                Ok(v) => {
                    self.a = v;
                    self.advance(n);
                    Ok(())
                },
                Err(e) => Err(e),
            },
            Instruction::Shld(adr) => {
                let adr = adr as usize;
                if adr + 1 < self.memory.len() {
                    let l = self.l;
                    let h = self.h;
                    self.memory[adr] = l;
                    self.memory[adr + 1] = h;
                    self.advance(n);
                    Ok(())
                } else {
                    Err(self.out_of_bounds(adr + 1))
                }
            },
            Instruction::Lhld(adr) => {
                let adr = adr as usize;
                if adr + 1 < self.memory.len() {
                    self.l = self.memory[adr];
                    self.h = self.memory[adr + 1];
                    self.advance(n);
                    Ok(())
                } else {
                    Err(self.out_of_bounds(adr + 1))
                }
            },
            Instruction::Sta(adr) => {
                let a = self.a;
                match self.store_byte(adr as usize, a) {
                    Ok(()) => {
                        self.advance(n);
                        Ok(())
                    },
                    Err(e) => Err(e),
                }
            },
            Instruction::Lda(adr) => match self.load_byte(adr as usize) {
                Ok(v) => {
                    self.a = v;
                    self.advance(n);
                    Ok(())
                },
                Err(e) => Err(e),
            },
            Instruction::Mvi(r, v) => match self.write_reg(r, v) {
                Ok(()) => {
                    self.advance(n);
                    Ok(())
                },
                Err(e) => Err(e),
            },
            Instruction::Mov(dst, src) => match self.read_reg(src) {
                Ok(v) => match self.write_reg(dst, v) {
                    Ok(()) => {
                        self.advance(n);
                        Ok(())
                    },
                    Err(e) => Err(e),
                },
                Err(e) => Err(e),
            },
            Instruction::Xchg => {
                let (d, e) = (self.d, self.e);
                self.d = self.h;
                self.e = self.l;
                self.h = d;
                self.l = e;
                self.advance(n);
                Ok(())
            },
            Instruction::Xthl => {
                let sp = self.sp as usize;
                if sp + 1 < self.memory.len() {
                    let (l, h) = (self.l, self.h);
                    self.l = self.memory[sp];
                    self.h = self.memory[sp + 1];
                    self.memory[sp] = l;
                    self.memory[sp + 1] = h;
                    self.advance(n);
                    Ok(())
                } else {
                    Err(self.out_of_bounds(sp + 1))
                }
            },
            _ => {
                // SPHL, the one transfer left
                self.sp = make_word(self.l, self.h);
                self.advance(n);
                Ok(())
            },
        }
    }

    /// DAD, INX and DCX: arithmetic on register pairs.
    fn pair_arithmetic(&mut self, i: Instruction) -> (r: Result<(), Fault>)
        requires
            is_pair_arithmetic(i),
        ensures
            settles(old(self)@, final(self)@, r, old(self)@.effect(i)),
    {
        let n = i.length();
        match i {
            Instruction::Dad(p) => {
                let sum: u32 = make_word(self.l, self.h) as u32 + self.pair(p) as u32;
                self.set_pair(Pair::HL, (sum % 0x10000) as u16);
                self.flags.cy = sum > 0xFFFF;
                self.advance(n);
                Ok(())
            },
            Instruction::Inx(p) => {
                let v = ((self.pair(p) as u32 + 1) % 0x10000) as u16;
                self.set_pair(p, v);
                self.advance(n);
                Ok(())
            },
            Instruction::Dcx(p) => {
                let v = ((self.pair(p) as u32 + 0xFFFF) % 0x10000) as u16;
                self.set_pair(p, v);
                self.advance(n);
                Ok(())
            },
            // no other instruction meets the precondition
            _ => Ok(()),
        }
    }

    /// Arithmetic and logic on 8-bit operands: INR, DCR, DAA and the accumulator operations.
    fn arithmetic(&mut self, i: Instruction) -> (r: Result<(), Fault>)
        requires
            is_arithmetic(i),
        ensures
            settles(old(self)@, final(self)@, r, old(self)@.effect(i)),
    {
        let n = i.length();
        let a = self.a;
        let cy = self.flags.cy;
        match i {
            Instruction::Inr(r) => match self.read_reg(r) {
                Ok(v) => {
                    let nv = ((v as u16 + 1) % 256) as u8;
                    match self.write_reg(r, nv) {
                        Ok(()) => {
                            self.flags = Flags::of(nv, cy, v % 16 == 15);
                            self.advance(n);
                            Ok(())
                        },
                        Err(e) => Err(e),
                    }
                },
                Err(e) => Err(e),
            },
            Instruction::Dcr(r) => match self.read_reg(r) {
                Ok(v) => {
                    let nv = ((v as u16 + 255) % 256) as u8;
                    match self.write_reg(r, nv) {
                        Ok(()) => {
                            self.flags = Flags::of(nv, cy, v % 16 != 0);
                            self.advance(n);
                            Ok(())
                        },
                        Err(e) => Err(e),
                    }
                },
                Err(e) => Err(e),
            },
            Instruction::Daa => {
                let (v, f) = daa(a, self.flags);
                self.a = v;
                self.flags = f;
                self.advance(n);
                Ok(())
            },
            Instruction::Alu(op, r) => match self.read_reg(r) {
                Ok(v) => {
                    let (na, f) = alu(op, a, v, self.flags);
                    self.a = na;
                    self.flags = f;
                    self.advance(n);
                    Ok(())
                },
                Err(e) => Err(e),
            },
            Instruction::AluImm(op, v) => {
                let (na, f) = alu(op, a, v, self.flags);
                self.a = na;
                self.flags = f;
                self.advance(n);
                Ok(())
            },
            // no other instruction meets the precondition
            _ => Ok(()),
        }
    }

    /// Rotates of the accumulator, CMA, and the carry operations STC and CMC.
    fn rotate(&mut self, i: Instruction) -> (r: Result<(), Fault>)
        requires
            is_rotate(i),
        ensures
            settles(old(self)@, final(self)@, r, old(self)@.effect(i)),
    {
        let n = i.length();
        let a = self.a;
        let cy = self.flags.cy;
        let carry_in: u16 = if cy { 1 } else { 0 };
        match i {
            Instruction::Rlc => {
                self.a = ((a as u16 * 2) % 256 + (a / 128) as u16) as u8;
                self.flags.cy = a >= 128;
                self.advance(n);
                Ok(())
            },
            Instruction::Rrc => {
                self.a = a / 2 + (a % 2) * 128;
                self.flags.cy = a % 2 == 1;
                self.advance(n);
                Ok(())
            },
            Instruction::Ral => {
                self.a = ((a as u16 * 2) % 256 + carry_in) as u8;
                self.flags.cy = a >= 128;
                self.advance(n);
                Ok(())
            },
            Instruction::Rar => {
                self.a = (a / 2) as u8 + (carry_in * 128) as u8;
                self.flags.cy = a % 2 == 1;
                self.advance(n);
                Ok(())
            },
            Instruction::Cma => {
                self.a = 255 - a;
                self.advance(n);
                Ok(())
            },
            Instruction::Stc => {
                self.flags.cy = true;
                self.advance(n);
                Ok(())
            },
            Instruction::Cmc => {
                self.flags.cy = !cy;
                self.advance(n);
                Ok(())
            },
            // no other instruction meets the precondition
            _ => Ok(()),
        }
    }

    /// Control transfer, stack, port and interrupt-control instructions, and HLT.
    fn control(&mut self, i: Instruction) -> (r: Result<(), Fault>)
        requires
            is_control(i),
        ensures
            settles(old(self)@, final(self)@, r, old(self)@.effect(i)),
    {
        let n = i.length();
        let ret_pc = ((self.pc as usize + n) % 0x10000) as u16;
        match i {
            Instruction::Rcond(c) => if condition(self.flags, c) {
                self.ret()
            } else {
                self.advance(n);
                Ok(())
            },
            Instruction::Ret => self.ret(),
            Instruction::Pop(p) => match self.pop_stack() {
                Ok(v) => {
                    self.set_stack_pair(p, v);
                    self.advance(n);
                    Ok(())
                },
                Err(e) => Err(e),
            },
            Instruction::Pchl => {
                let target = make_word(self.l, self.h);
                self.jump(target)
            },
            Instruction::Jcond(c, adr) => if condition(self.flags, c) {
                self.jump(adr)
            } else {
                self.advance(n);
                Ok(())
            },
            Instruction::Jmp(adr) => self.jump(adr),
            Instruction::Ccond(c, adr) => if condition(self.flags, c) {
                self.call(ret_pc, adr)
            } else {
                self.advance(n);
                Ok(())
            },
            Instruction::Call(adr) => self.call(ret_pc, adr),
            Instruction::Rst(k) => self.call(ret_pc, k as u16 * 8),
            Instruction::Push(p) => {
                let v = self.stack_pair(p);
                match self.push_stack(v) {
                    Ok(()) => {
                        self.advance(n);
                        Ok(())
                    },
                    Err(e) => Err(e),
                }
            },
            Instruction::Hlt => {
                self.halted = true;
                self.advance(n);
                Ok(())
            },
            Instruction::Di => {
                self.interrupts_enabled = false;
                self.advance(n);
                Ok(())
            },
            Instruction::Ei => {
                self.interrupts_enabled = true;
                self.advance(n);
                Ok(())
            },
            _ => {
                // IN and OUT: the host performs the port access
                self.advance(n);
                Ok(())
            },
        }
    }

    /// Executes one instruction: applies its effect and moves the program counter
    /// past it, or to the target of a jump, call, return or restart. IN and OUT
    /// return the port access that the host is to perform. A fault leaves the state
    /// as it was; a halted processor does nothing.
    pub fn execute(&mut self, instruction: Instruction) -> (r: Result<Option<PortAccess>, Fault>)
        ensures
            match old(self)@.step(instruction) {
                Ok((s, port)) => r == Ok::<Option<PortAccess>, Fault>(port) && final(self)@ == s,
                Err(e) => r == Err::<Option<PortAccess>, Fault>(e) && final(self)@ == old(self)@,
            },
    {
        if self.halted {
            return Ok(None);
        }
        let port = match instruction {
            Instruction::Out(port) => Some(PortAccess::Write { port, value: self.a }),
            Instruction::In(port) => Some(PortAccess::Read { port }),
            _ => None,
        };
        let r = match instruction {
            Instruction::Nop | Instruction::Lxi(..) | Instruction::Stax(_) | Instruction::Ldax(_)
            | Instruction::Shld(_) | Instruction::Lhld(_) | Instruction::Sta(_)
            | Instruction::Lda(_) | Instruction::Mvi(..) | Instruction::Mov(..)
            | Instruction::Xchg | Instruction::Xthl | Instruction::Sphl => self.transfer(instruction),
            Instruction::Dad(_) | Instruction::Inx(_) | Instruction::Dcx(_) => self.pair_arithmetic(
                instruction,
            ),
            Instruction::Inr(_) | Instruction::Dcr(_) | Instruction::Daa | Instruction::Alu(..)
            | Instruction::AluImm(..) => self.arithmetic(instruction),
            Instruction::Rlc | Instruction::Rrc | Instruction::Ral | Instruction::Rar
            | Instruction::Cma | Instruction::Stc | Instruction::Cmc => self.rotate(instruction),
            _ => self.control(instruction),
        };
        match r {
            Ok(()) => Ok(port),
            Err(e) => Err(e),
        }
    }

    /// Fetches the instruction at the program counter and executes it. A halted
    /// processor does nothing; a decode fault leaves the state as it was.
    pub fn step(&mut self) -> (r: Result<Option<PortAccess>, Fault>)
        ensures
            match old(self)@.next() {
                Ok((s, port)) => r == Ok::<Option<PortAccess>, Fault>(port) && final(self)@ == s,
                Err(e) => r == Err::<Option<PortAccess>, Fault>(e) && final(self)@ == old(self)@,
            },
    {
        if self.halted {
            return Ok(None);
        }
        match self.fetch() {
            Ok((instruction, _)) => self.execute(instruction),
            Err(e) => Err(e),
        }
    }

    /// Delivers an interrupt that asks for restart `vector` (0 to 7). When
    /// interrupts are enabled, the program counter is pushed, control goes to
    /// `vector * 8`, interrupts are disabled and a halt ends; the result is then
    /// `Ok(true)`. When they are disabled nothing changes and the result is `Ok(false)`.
    pub fn interrupt(&mut self, vector: u8) -> (r: Result<bool, Fault>)
        requires
            vector < 8,
        ensures
            match old(self)@.interrupt(vector) {
                Ok(Some(s)) => r == Ok::<bool, Fault>(true) && final(self)@ == s,
                Ok(None) => r == Ok::<bool, Fault>(false) && final(self)@ == old(self)@,
                Err(e) => r == Err::<bool, Fault>(e) && final(self)@ == old(self)@,
            },
    {
        if !self.interrupts_enabled {
            return Ok(false);
        }
        let pc = self.pc;
        match self.call(pc, vector as u16 * 8) {
            Ok(()) => {
                self.halted = false;
                self.interrupts_enabled = false;
                Ok(true)
            },
            Err(e) => Err(e),
        }
    }
}

/// The control transfer, stack, port and interrupt-control instructions, and HLT.
pub open spec fn is_control(i: Instruction) -> bool {
    match i {
        Instruction::Rcond(_) | Instruction::Ret | Instruction::Pop(_) | Instruction::Pchl
        | Instruction::Jcond(..) | Instruction::Jmp(_) | Instruction::Ccond(..)
        | Instruction::Call(_) | Instruction::Rst(_) | Instruction::Push(_) | Instruction::Hlt
        | Instruction::Di | Instruction::Ei | Instruction::In(_) | Instruction::Out(_) => true,
        _ => false,
    }
}

/// DAD, INX and DCX.
pub open spec fn is_pair_arithmetic(i: Instruction) -> bool {
    match i {
        Instruction::Dad(_) | Instruction::Inx(_) | Instruction::Dcx(_) => true,
        _ => false,
    }
}

/// INR, DCR, DAA and the accumulator operations.
pub open spec fn is_arithmetic(i: Instruction) -> bool {
    match i {
        Instruction::Inr(_) | Instruction::Dcr(_) | Instruction::Daa | Instruction::Alu(..)
        | Instruction::AluImm(..) => true,
        _ => false,
    }
}

/// The rotates, CMA, STC and CMC.
pub open spec fn is_rotate(i: Instruction) -> bool {
    match i {
        Instruction::Rlc | Instruction::Rrc | Instruction::Ral | Instruction::Rar
        | Instruction::Cma | Instruction::Stc | Instruction::Cmc => true,
        _ => false,
    }
}

/// The data transfer instructions.
pub open spec fn is_transfer(i: Instruction) -> bool {
    match i {
        Instruction::Nop | Instruction::Lxi(..) | Instruction::Stax(_) | Instruction::Ldax(_)
        | Instruction::Shld(_) | Instruction::Lhld(_) | Instruction::Sta(_) | Instruction::Lda(_)
        | Instruction::Mvi(..) | Instruction::Mov(..) | Instruction::Xchg | Instruction::Xthl
        | Instruction::Sphl => true,
        _ => false,
    }
}

} // verus!
