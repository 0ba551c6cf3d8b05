use vstd::prelude::*;

use crate::cpu::{cond_holds, hi, lo, CpuState, PortAccess};
use crate::fault::Fault;
use crate::flags::{add_spec, lemma_psw_round_trip, popcount, psw_byte, sub_spec};
use crate::instructions::{decode, word, Cond, Instruction, StackPair};

verus! {

/// Adding two bytes sets Zero exactly when the sum is 0 modulo 256, Sign exactly
/// when bit 7 of the truncated sum is set, Parity exactly when the truncated sum
/// has an even number of set bits, and Carry exactly when the sum exceeds 255.
pub proof fn lemma_add_flags(a: u8, b: u8)
    ensures
        ({
            let (v, f) = add_spec(a, b, false);
            let sum = a as int + b as int;
            &&& v as int == sum % 256
            &&& f.z <==> sum % 256 == 0
            &&& f.s <==> v & 0x80 != 0
            &&& f.p <==> popcount(v) % 2 == 0
            &&& f.cy <==> sum > 255
        }),
{
    let v = add_spec(a, b, false).0;
    assert(v >= 128 <==> v & 0x80 != 0) by (bit_vector);
}

/// Subtracting two bytes sets Zero exactly when they are equal, Sign exactly when
/// bit 7 of the difference modulo 256 is set, Parity exactly when that difference
/// has an even number of set bits, and Carry exactly when a borrow occurs (`a < b`).
pub proof fn lemma_sub_flags(a: u8, b: u8)
    ensures
        ({
            let (v, f) = sub_spec(a, b, false);
            let diff = a as int - b as int;
            &&& v as int == (diff + 256) % 256
            &&& f.z <==> a == b
            &&& f.s <==> v & 0x80 != 0
            &&& f.p <==> popcount(v) % 2 == 0
            &&& f.cy <==> a < b
        }),
{
    let v = sub_spec(a, b, false).0;
    assert(v >= 128 <==> v & 0x80 != 0) by (bit_vector);
}

/// PUSH of a register pair (or of PSW) followed by POP of the same pair gives back
/// every register, every flag and the stack pointer; only PC moves on, by one byte
/// per instruction.
pub proof fn lemma_push_pop_round_trip(s: CpuState, p: StackPair)
    requires
        !s.halted,
        2 <= s.sp <= s.mem.len(),
    ensures
        s.step(Instruction::Push(p)) is Ok,
        ({
            let s1 = s.step(Instruction::Push(p))->Ok_0.0;
            &&& s1.step(Instruction::Pop(p)) is Ok
            &&& ({
                let s2 = s1.step(Instruction::Pop(p))->Ok_0.0;
                &&& s2.stack_pair(p) == s.stack_pair(p)
                &&& s2.sp == s.sp
                &&& s2.a == s.a && s2.b == s.b && s2.c == s.c && s2.d == s.d
                &&& s2.e == s.e && s2.h == s.h && s2.l == s.l
                &&& s2.flags == s.flags
                &&& s2.pc as int == (s.pc + 2) % 0x10000
            })
        }),
{
    lemma_psw_round_trip(s.flags);
    let v = s.stack_pair(p);
    lemma_word_bytes(v);
    lemma_word_split(psw_byte(s.flags), s.a);
    lemma_word_split(s.c, s.b);
    lemma_word_split(s.e, s.d);
    lemma_word_split(s.l, s.h);
    let s1 = s.push(v)->Ok_0.advance(1);
    lemma_push_step(s, p);
    assert(s1.mem[s.sp - 2] == lo(v));
    assert(s1.mem[s.sp - 1] == hi(v));
    let popped = CpuState { sp: s.sp, ..s1 };
    assert(s1.pop() == Ok::<(u16, CpuState), Fault>((v, popped)));
    lemma_pop_step(s1, p);
}

/// What PUSH does when SP leaves room for two bytes.
proof fn lemma_push_step(s: CpuState, p: StackPair)
    requires
        !s.halted,
        2 <= s.sp <= s.mem.len(),
    ensures
        s.push(s.stack_pair(p)) is Ok,
        s.step(Instruction::Push(p)) == Ok::<(CpuState, Option<PortAccess>), Fault>(
            (s.push(s.stack_pair(p))->Ok_0.advance(1), None),
        ),
{
}

/// What POP does when two bytes lie at SP.
proof fn lemma_pop_step(s: CpuState, p: StackPair)
    requires
        !s.halted,
        s.pop() is Ok,
    ensures
        s.step(Instruction::Pop(p)) == Ok::<(CpuState, Option<PortAccess>), Fault>(
            (s.pop()->Ok_0.1.set_stack_pair(p, s.pop()->Ok_0.0).advance(1), None),
        ),
{
}

/// The bytes of a 16-bit value make it up again.
proof fn lemma_word_bytes(v: u16)
    ensures
        word(lo(v), hi(v)) == v,
{
}

/// A 16-bit value made of two bytes splits into them again.
proof fn lemma_word_split(l: u8, h: u8)
    ensures
        lo(word(l, h)) == l,
        hi(word(l, h)) == h,
{
}

/// CALL at X followed by RET at the called address brings PC back to X + 3 and the
/// stack pointer back to its value before the call.
#[verifier::rlimit(40)]
pub proof fn lemma_call_ret(s: CpuState, target: u16)
    requires
        !s.halted,
        (target as int) < s.mem.len(),
        2 <= s.sp <= s.mem.len(),
        (s.pc + 3) % 0x10000 < s.mem.len(),
    ensures
        s.step(Instruction::Call(target)) is Ok,
        ({
            let s1 = s.step(Instruction::Call(target))->Ok_0.0;
            &&& s1.pc == target
            &&& s1.step(Instruction::Ret) is Ok
            &&& ({
                let s2 = s1.step(Instruction::Ret)->Ok_0.0;
                &&& s2.pc as int == (s.pc + 3) % 0x10000
                &&& s2.sp == s.sp
            })
        }),
{
    let ret = s.advance(3).pc;
    lemma_word_bytes(ret);
    let t = s.push(ret)->Ok_0;
    let s1 = CpuState { pc: target, ..t };
    assert(s.call(ret, target) == Ok::<CpuState, Fault>(s1));
    assert(s.effect(Instruction::Call(target)) == Ok::<CpuState, Fault>(s1));
    assert(s1.mem[s.sp - 2] == lo(ret));
    assert(s1.mem[s.sp - 1] == hi(ret));
    let popped = CpuState { sp: s.sp, ..s1 };
    assert(s1.pop() == Ok::<(u16, CpuState), Fault>((ret, popped)));
    assert(s1.effect(Instruction::Ret) == Ok::<CpuState, Fault>(CpuState { pc: ret, ..popped }));
}

/// A conditional jump goes to its target exactly when its condition holds of the
/// flags, and otherwise on to the next instruction; SP is untouched either way.
pub proof fn lemma_conditional_jump(s: CpuState, c: Cond, target: u16)
    requires
        !s.halted,
        (target as int) < s.mem.len(),
    ensures
        cond_holds(s.flags, c) ==> s.step(Instruction::Jcond(c, target)) == Ok::<_, Fault>(
            (CpuState { pc: target, ..s }, None::<PortAccess>),
        ),
        !cond_holds(s.flags, c) ==> s.step(Instruction::Jcond(c, target)) == Ok::<_, Fault>(
            (s.advance(3), None::<PortAccess>),
        ),
{
}

/// A conditional call pushes the address of the next instruction and goes to its
/// target exactly when its condition holds; otherwise PC moves on by three bytes
/// and SP and memory are untouched.
pub proof fn lemma_conditional_call(s: CpuState, c: Cond, target: u16)
    requires
        !s.halted,
        (target as int) < s.mem.len(),
        2 <= s.sp <= s.mem.len(),
    ensures
        s.step(Instruction::Ccond(c, target)) is Ok,
        ({
            let s1 = s.step(Instruction::Ccond(c, target))->Ok_0.0;
            &&& cond_holds(s.flags, c) ==> s1.pc == target && s1.sp == s.sp - 2
                && s1.mem[s.sp - 2] as int == ((s.pc + 3) % 0x10000) % 256
                && s1.mem[s.sp - 1] as int == ((s.pc + 3) % 0x10000) / 256
            &&& !cond_holds(s.flags, c) ==> s1 == s.advance(3)
        }),
{
}

/// A conditional return pops PC exactly when its condition holds; otherwise PC
/// moves on by one byte and SP is untouched.
pub proof fn lemma_conditional_return(s: CpuState, c: Cond)
    requires
        !s.halted,
        s.sp + 2 <= s.mem.len(),
        (s.mem[s.sp as int] + s.mem[s.sp + 1] * 256) < s.mem.len(),
    ensures
        s.step(Instruction::Rcond(c)) is Ok,
        ({
            let s1 = s.step(Instruction::Rcond(c))->Ok_0.0;
            &&& cond_holds(s.flags, c) ==> s1.pc as int == s.mem[s.sp as int] + s.mem[s.sp + 1]
                * 256 && s1.sp as int == (s.sp + 2) % 0x10000
            &&& !cond_holds(s.flags, c) ==> s1 == s.advance(1)
        }),
{
}

/// Decoding reads nothing but the (at most three) bytes from `pc` on: two memories
/// that agree there, and in whether those addresses exist, decode alike. In
/// particular decoding the same bytes twice gives the same instruction and length.
pub proof fn lemma_decode_reads_only_its_bytes(m1: Seq<u8>, m2: Seq<u8>, pc: usize)
    requires
        forall|i: int|
            pc <= i < pc + 3 ==> (i < m1.len() <==> i < m2.len()) && (i < m1.len() ==> m1[i]
                == m2[i]),
        pc < m1.len() <==> pc < m2.len(),
        m1.len() < pc + 3 ==> m1.len() == m2.len(),
    ensures
        decode(m1, pc) == decode(m2, pc),
{
    if pc < m1.len() {
        assert(m1[pc as int] == m2[pc as int]);
    }
}

/// No instruction changes the size of the memory.
pub proof fn lemma_step_keeps_memory_size(s: CpuState, i: Instruction)
    ensures
        s.step(i) is Ok ==> s.step(i)->Ok_0.0.mem.len() == s.mem.len(),
{
}

} // verus!
