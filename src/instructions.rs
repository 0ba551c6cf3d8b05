use vstd::prelude::*;

use crate::fault::Fault;

verus! {

/// An 8-bit operand: a register, or `M`, the memory byte that H/L points to.
#[derive(Clone, Copy, PartialEq, Eq, Structural, Debug)]
pub enum Reg {
    B,
    C,
    D,
    E,
    H,
    L,
    M,
    A,
}

/// A 16-bit register pair, as named by LXI, INX, DCX, DAD, LDAX and STAX.
#[derive(Clone, Copy, PartialEq, Eq, Structural, Debug)]
pub enum Pair {
    BC,
    DE,
    HL,
    SP,
}

/// A register pair as named by PUSH and POP: PSW is the accumulator with the flags.
#[derive(Clone, Copy, PartialEq, Eq, Structural, Debug)]
pub enum StackPair {
    BC,
    DE,
    HL,
    PSW,
}

/// The condition of a conditional jump, call or return.
#[derive(Clone, Copy, PartialEq, Eq, Structural, Debug)]
pub enum Cond {
    NotZero,
    Zero,
    NoCarry,
    Carry,
    ParityOdd,
    ParityEven,
    Plus,
    Minus,
}

/// An accumulator operation: ADD, ADC, SUB, SBB, ANA, XRA, ORA, CMP.
#[derive(Clone, Copy, PartialEq, Eq, Structural, Debug)]
pub enum AluOp {
    Add,
    Adc,
    Sub,
    Sbb,
    Ana,
    Xra,
    Ora,
    Cmp,
}

/// One decoded 8080 instruction with its operands.
#[derive(Clone, Copy, PartialEq, Eq, Structural, Debug)]
pub enum Instruction {
    Nop,
    Lxi(Pair, u16),
    Dad(Pair),
    Stax(Pair),
    Ldax(Pair),
    Shld(u16),
    Lhld(u16),
    Sta(u16),
    Lda(u16),
    Inx(Pair),
    Dcx(Pair),
    Inr(Reg),
    Dcr(Reg),
    Mvi(Reg, u8),
    Rlc,
    Rrc,
    Ral,
    Rar,
    Daa,
    Cma,
    Stc,
    Cmc,
    Mov(Reg, Reg),
    Hlt,
    Alu(AluOp, Reg),
    AluImm(AluOp, u8),
    Rcond(Cond),
    Ret,
    Pop(StackPair),
    Pchl,
    Sphl,
    Jcond(Cond, u16),
    Jmp(u16),
    Out(u8),
    In(u8),
    Xthl,
    Xchg,
    Di,
    Ei,
    Ccond(Cond, u16),
    Call(u16),
    Push(StackPair),
    Rst(u8),
}

/// The operand named by a 3-bit register field.
pub open spec fn reg_of(code: u8) -> Reg {
    let c = code % 8;
    if c == 0 {
        Reg::B
    } else if c == 1 {
        Reg::C
    } else if c == 2 {
        Reg::D
    } else if c == 3 {
        Reg::E
    } else if c == 4 {
        Reg::H
    } else if c == 5 {
        Reg::L
    } else if c == 6 {
        Reg::M
    } else {
        Reg::A
    }
}

/// The register pair named by a 2-bit pair field.
pub open spec fn pair_of(code: u8) -> Pair {
    let c = code % 4;
    if c == 0 {
        Pair::BC
    } else if c == 1 {
        Pair::DE
    } else if c == 2 {
        Pair::HL
    } else {
        Pair::SP
    }
}

/// The stack pair named by a 2-bit pair field of PUSH or POP.
pub open spec fn stack_pair_of(code: u8) -> StackPair {
    let c = code % 4;
    if c == 0 {
        StackPair::BC
    } else if c == 1 {
        StackPair::DE
    } else if c == 2 {
        StackPair::HL
    } else {
        StackPair::PSW
    }
}

/// The condition named by a 3-bit condition field.
pub open spec fn cond_of(code: u8) -> Cond {
    let c = code % 8;
    if c == 0 {
        Cond::NotZero
    } else if c == 1 {
        Cond::Zero
    } else if c == 2 {
        Cond::NoCarry
    } else if c == 3 {
        Cond::Carry
    } else if c == 4 {
        Cond::ParityOdd
    } else if c == 5 {
        Cond::ParityEven
    } else if c == 6 {
        Cond::Plus
    } else {
        Cond::Minus
    }
}

/// The accumulator operation named by a 3-bit operation field.
pub open spec fn alu_of(code: u8) -> AluOp {
    let c = code % 8;
    if c == 0 {
        AluOp::Add
    } else if c == 1 {
        AluOp::Adc
    } else if c == 2 {
        AluOp::Sub
    } else if c == 3 {
        AluOp::Sbb
    } else if c == 4 {
        AluOp::Ana
    } else if c == 5 {
        AluOp::Xra
    } else if c == 6 {
        AluOp::Ora
    } else {
        AluOp::Cmp
    }
}

/// The little-endian 16-bit value of two bytes.
pub open spec fn word(lo: u8, hi: u8) -> u16 {
    (hi as int * 256 + lo as int) as u16
}

/// The instruction that opcode `op` stands for, given the two bytes that follow it,
/// or `None` when the opcode is unassigned. An opcode splits into the fields
/// `x` (bits 7-6), `y` (bits 5-3) and `z` (bits 2-0); `y` splits into `p`
/// (bits 5-4) and `q` (bit 3).
pub open spec fn decode_op(op: u8, lo: u8, hi: u8) -> Option<Instruction> {
    let x = op / 64;
    let y = (op / 8) % 8;
    let z = op % 8;
    let p = y / 2;
    let q = y % 2;
    let d16 = word(lo, hi);
    if x == 0 {
        if z == 0 {
            if y == 0 { Some(Instruction::Nop) } else { None }
        } else if z == 1 {
            if q == 0 { Some(Instruction::Lxi(pair_of(p), d16)) } else { Some(Instruction::Dad(pair_of(p))) }
        } else if z == 2 {
            if q == 0 {
                if p == 0 || p == 1 {
                    Some(Instruction::Stax(pair_of(p)))
                } else if p == 2 {
                    Some(Instruction::Shld(d16))
                } else {
                    Some(Instruction::Sta(d16))
                }
            } else {
                if p == 0 || p == 1 {
                    Some(Instruction::Ldax(pair_of(p)))
                } else if p == 2 {
                    Some(Instruction::Lhld(d16))
                } else {
                    Some(Instruction::Lda(d16))
                }
            }
        } else if z == 3 {
            if q == 0 { Some(Instruction::Inx(pair_of(p))) } else { Some(Instruction::Dcx(pair_of(p))) }
        } else if z == 4 {
            Some(Instruction::Inr(reg_of(y)))
        } else if z == 5 {
            Some(Instruction::Dcr(reg_of(y)))
        } else if z == 6 {
            Some(Instruction::Mvi(reg_of(y), lo))
        } else {
            if y == 0 {
                Some(Instruction::Rlc)
            } else if y == 1 {
                Some(Instruction::Rrc)
            } else if y == 2 {
                Some(Instruction::Ral)
            } else if y == 3 {
                Some(Instruction::Rar)
            } else if y == 4 {
                Some(Instruction::Daa)
            } else if y == 5 {
                Some(Instruction::Cma)
            } else if y == 6 {
                Some(Instruction::Stc)
            } else {
                Some(Instruction::Cmc)
            }
        }
    } else if x == 1 {
        if y == 6 && z == 6 { Some(Instruction::Hlt) } else { Some(Instruction::Mov(reg_of(y), reg_of(z))) }
    } else if x == 2 {
        Some(Instruction::Alu(alu_of(y), reg_of(z)))
    } else {
        if z == 0 {
            Some(Instruction::Rcond(cond_of(y)))
        } else if z == 1 {
            if q == 0 {
                Some(Instruction::Pop(stack_pair_of(p)))
            } else if p == 0 {
                Some(Instruction::Ret)
            } else if p == 1 {
                None
            } else if p == 2 {
                Some(Instruction::Pchl)
            } else {
                Some(Instruction::Sphl)
            }
        } else if z == 2 {
            Some(Instruction::Jcond(cond_of(y), d16))
        } else if z == 3 {
            if y == 0 {
                Some(Instruction::Jmp(d16))
            } else if y == 1 {
                None
            } else if y == 2 {
                Some(Instruction::Out(lo))
            } else if y == 3 {
                Some(Instruction::In(lo))
            } else if y == 4 {
                Some(Instruction::Xthl)
            } else if y == 5 {
                Some(Instruction::Xchg)
            } else if y == 6 {
                Some(Instruction::Di)
            } else {
                Some(Instruction::Ei)
            }
        } else if z == 4 {
            Some(Instruction::Ccond(cond_of(y), d16))
        } else if z == 5 {
            if q == 0 {
                Some(Instruction::Push(stack_pair_of(p)))
            } else if p == 0 {
                Some(Instruction::Call(d16))
            } else {
                None
            }
        } else if z == 6 {
            Some(Instruction::AluImm(alu_of(y), lo))
        } else {
            Some(Instruction::Rst(y))
        }
    }
}

/// The byte at index `i`, or zero past either end.
pub open spec fn byte_at(mem: Seq<u8>, i: int) -> u8 {
    if 0 <= i < mem.len() {
        mem[i]
    } else {
        0
    }
}

/// The instruction that starts at `pc` in `mem`, with its length in bytes.
/// An unassigned opcode is an `UnknownOpcode` fault; an instruction that starts
/// or ends past the last byte is an `OutOfBounds` fault at the first missing byte.
pub open spec fn decode(mem: Seq<u8>, pc: usize) -> Result<(Instruction, usize), Fault> {
    if pc >= mem.len() {
        Err(Fault::OutOfBounds { address: pc, pc })
    } else {
        match decode_op(mem[pc as int], byte_at(mem, pc + 1), byte_at(mem, pc + 2)) {
            None => Err(Fault::UnknownOpcode { opcode: mem[pc as int], pc }),
            Some(i) => if pc + i.byte_len() > mem.len() {
                Err(Fault::OutOfBounds { address: mem.len() as usize, pc })
            } else {
                Ok((i, i.byte_len() as usize))
            },
        }
    }
}

fn reg_from_code(code: u8) -> (r: Reg)
    ensures
        r == reg_of(code),
{
    let c = code % 8;
    if c == 0 {
        Reg::B
    } else if c == 1 {
        Reg::C
    } else if c == 2 {
        Reg::D
    } else if c == 3 {
        Reg::E
    } else if c == 4 {
        Reg::H
    } else if c == 5 {
        Reg::L
    } else if c == 6 {
        Reg::M
    } else {
        Reg::A
    }
}

fn pair_from_code(code: u8) -> (r: Pair)
    ensures
        r == pair_of(code),
{
    let c = code % 4;
    if c == 0 {
        Pair::BC
    } else if c == 1 {
        Pair::DE
    } else if c == 2 {
        Pair::HL
    } else {
        Pair::SP
    }
}

fn stack_pair_from_code(code: u8) -> (r: StackPair)
    ensures
        r == stack_pair_of(code),
{
    let c = code % 4;
    if c == 0 {
        StackPair::BC
    } else if c == 1 {
        StackPair::DE
    } else if c == 2 {
        StackPair::HL
    } else {
        StackPair::PSW
    }
}

fn cond_from_code(code: u8) -> (r: Cond)
    ensures
        r == cond_of(code),
{
    let c = code % 8;
    if c == 0 {
        Cond::NotZero
    } else if c == 1 {
        Cond::Zero
    } else if c == 2 {
        Cond::NoCarry
    } else if c == 3 {
        Cond::Carry
    } else if c == 4 {
        Cond::ParityOdd
    } else if c == 5 {
        Cond::ParityEven
    } else if c == 6 {
        Cond::Plus
    } else {
        Cond::Minus
    }
}

fn alu_from_code(code: u8) -> (r: AluOp)
    ensures
        r == alu_of(code),
{
    let c = code % 8;
    if c == 0 {
        AluOp::Add
    } else if c == 1 {
        AluOp::Adc
    } else if c == 2 {
        AluOp::Sub
    } else if c == 3 {
        AluOp::Sbb
    } else if c == 4 {
        AluOp::Ana
    } else if c == 5 {
        AluOp::Xra
    } else if c == 6 {
        AluOp::Ora
    } else {
        AluOp::Cmp
    }
}


fn decode_opcode(op: u8, lo: u8, hi: u8) -> (r: Option<Instruction>)
    ensures
        r == decode_op(op, lo, hi),
{
    let x: u8 = op / 64;
    let y: u8 = (op / 8) % 8;
    let z: u8 = op % 8;
    let p: u8 = y / 2;
    let q: u8 = y % 2;
    let d16: u16 = (hi as u16) * 256 + lo as u16;
    if x == 0 {
        if z == 0 {
            if y == 0 { Some(Instruction::Nop) } else { None }
        } else if z == 1 {
            if q == 0 { Some(Instruction::Lxi(pair_from_code(p), d16)) } else { Some(Instruction::Dad(pair_from_code(p))) }
        } else if z == 2 {
            if q == 0 {
                if p == 0 || p == 1 {
                    Some(Instruction::Stax(pair_from_code(p)))
                } else if p == 2 {
                    Some(Instruction::Shld(d16))
                } else {
                    Some(Instruction::Sta(d16))
                }
            } else {
                if p == 0 || p == 1 {
                    Some(Instruction::Ldax(pair_from_code(p)))
                } else if p == 2 {
                    Some(Instruction::Lhld(d16))
                } else {
                    Some(Instruction::Lda(d16))
                }
            }
        } else if z == 3 {
            if q == 0 { Some(Instruction::Inx(pair_from_code(p))) } else { Some(Instruction::Dcx(pair_from_code(p))) }
        } else if z == 4 {
            Some(Instruction::Inr(reg_from_code(y)))
        } else if z == 5 {
            Some(Instruction::Dcr(reg_from_code(y)))
        } else if z == 6 {
            Some(Instruction::Mvi(reg_from_code(y), lo))
        } else {
            if y == 0 {
                Some(Instruction::Rlc)
            } else if y == 1 {
                Some(Instruction::Rrc)
            } else if y == 2 {
                Some(Instruction::Ral)
            } else if y == 3 {
                Some(Instruction::Rar)
            } else if y == 4 {
                Some(Instruction::Daa)
            } else if y == 5 {
                Some(Instruction::Cma)
            } else if y == 6 {
                Some(Instruction::Stc)
            } else {
                Some(Instruction::Cmc)
            }
        }
    } else if x == 1 {
        if y == 6 && z == 6 { Some(Instruction::Hlt) } else { Some(Instruction::Mov(reg_from_code(y), reg_from_code(z))) }
    } else if x == 2 {
        Some(Instruction::Alu(alu_from_code(y), reg_from_code(z)))
    } else {
        if z == 0 {
            Some(Instruction::Rcond(cond_from_code(y)))
        } else if z == 1 {
            if q == 0 {
                Some(Instruction::Pop(stack_pair_from_code(p)))
            } else if p == 0 {
                Some(Instruction::Ret)
            } else if p == 1 {
                None
            } else if p == 2 {
                Some(Instruction::Pchl)
            } else {
                Some(Instruction::Sphl)
            }
        } else if z == 2 {
            Some(Instruction::Jcond(cond_from_code(y), d16))
        } else if z == 3 {
            if y == 0 {
                Some(Instruction::Jmp(d16))
            } else if y == 1 {
                None
            } else if y == 2 {
                Some(Instruction::Out(lo))
            } else if y == 3 {
                Some(Instruction::In(lo))
            } else if y == 4 {
                Some(Instruction::Xthl)
            } else if y == 5 {
                Some(Instruction::Xchg)
            } else if y == 6 {
                Some(Instruction::Di)
            } else {
                Some(Instruction::Ei)
            }
        } else if z == 4 {
            Some(Instruction::Ccond(cond_from_code(y), d16))
        } else if z == 5 {
            if q == 0 {
                Some(Instruction::Push(stack_pair_from_code(p)))
            } else if p == 0 {
                Some(Instruction::Call(d16))
            } else {
                None
            }
        } else if z == 6 {
            Some(Instruction::AluImm(alu_from_code(y), lo))
        } else {
            Some(Instruction::Rst(y))
        }
    }
}

impl Instruction {
    /// The encoded length of the instruction in bytes.
    pub open spec fn byte_len(self) -> nat {
        match self {
            Instruction::Lxi(..) | Instruction::Shld(_) | Instruction::Lhld(_) | Instruction::Sta(_)
            | Instruction::Lda(_) | Instruction::Jcond(..) | Instruction::Jmp(_)
            | Instruction::Ccond(..) | Instruction::Call(_) => 3,
            Instruction::Mvi(..) | Instruction::AluImm(..) | Instruction::Out(_)
            | Instruction::In(_) => 2,
            _ => 1,
        }
    }

    /// The encoded length of the instruction in bytes: 1, 2 or 3.
    pub fn length(&self) -> (n: usize)
        ensures
            n as nat == self.byte_len(),
            1 <= n <= 3,
    {
        match self {
            Instruction::Lxi(..) | Instruction::Shld(_) | Instruction::Lhld(_) | Instruction::Sta(_)
            | Instruction::Lda(_) | Instruction::Jcond(..) | Instruction::Jmp(_)
            | Instruction::Ccond(..) | Instruction::Call(_) => 3,
            Instruction::Mvi(..) | Instruction::AluImm(..) | Instruction::Out(_)
            | Instruction::In(_) => 2,
            _ => 1,
        }
    }

    /// Decodes the instruction that starts at `pc` in `data`, with its length.
    pub fn disassemble(data: &[u8], pc: usize) -> (r: Result<(Instruction, usize), Fault>)
        ensures
            r == decode(data@, pc),
    {
        let n = data.len();
        if pc >= n {
            return Err(Fault::OutOfBounds { address: pc, pc });
        }
        let op = data[pc];
        let lo: u8 = if n - pc > 1 { data[pc + 1] } else { 0 };
        let hi: u8 = if n - pc > 2 { data[pc + 2] } else { 0 };
        match decode_opcode(op, lo, hi) {
            None => Err(Fault::UnknownOpcode { opcode: op, pc }),
            Some(i) => {
                let len = i.length();
                if n - pc < len {
                    Err(Fault::OutOfBounds { address: n, pc })
                } else {
                    Ok((i, len))
                }
            },
        }
    }
}

} // verus!
