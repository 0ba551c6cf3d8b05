use invaders::cpu::{Cpu, PortAccess, MEMORY_SIZE};
use invaders::fault::Fault;
use invaders::flags::Flags;
use invaders::instructions::{AluOp, Cond, Instruction, Pair, Reg, StackPair};

fn run(cpu: &mut Cpu, steps: usize) {
    for _ in 0..steps {
        cpu.step().unwrap();
    }
}

#[test]
fn new_cpu_is_zeroed() {
    let cpu = Cpu::new();
    assert_eq!(cpu.memory.len(), MEMORY_SIZE);
    assert!(cpu.memory.iter().all(|&b| b == 0));
    assert_eq!((cpu.a, cpu.b, cpu.c, cpu.d, cpu.e, cpu.h, cpu.l), (0, 0, 0, 0, 0, 0, 0));
    assert_eq!((cpu.sp, cpu.pc), (0, 0));
    assert_eq!(cpu.flags, Flags::new());
    assert!(!cpu.halted);
    assert!(!cpu.interrupts_enabled);
}

#[test]
fn mvi_then_adi() {
    let mut cpu = Cpu::new();
    cpu.load(&[0x3E, 0x05, 0xC6, 0x03], 0).unwrap();
    run(&mut cpu, 2);
    assert_eq!(cpu.a, 8);
    assert!(!cpu.flags.z);
    assert!(!cpu.flags.cy);
    assert_eq!(cpu.pc, 4);
}

#[test]
fn lxi_sp_then_push_b() {
    let mut cpu = Cpu::new();
    cpu.load(&[0x31, 0x00, 0x40, 0xC5], 0).unwrap();
    cpu.b = 0x12;
    cpu.c = 0x34;
    run(&mut cpu, 2);
    assert_eq!(cpu.memory[0x3FFE], 0x34);
    assert_eq!(cpu.memory[0x3FFF], 0x12);
    assert_eq!(cpu.sp, 0x3FFE);
    assert_eq!(cpu.pc, 4);
}

#[test]
fn jump_sets_pc_whatever_it_was() {
    let (i, len) = Instruction::disassemble(&[0xC3, 0x00, 0x10], 0).unwrap();
    assert_eq!(i, Instruction::Jmp(0x1000));
    assert_eq!(len, 3);
    for start in [0u16, 0x0003, 0x2000, 0x3FFD] {
        let mut cpu = Cpu::new();
        cpu.pc = start;
        assert_eq!(cpu.execute(i), Ok(None));
        assert_eq!(cpu.pc, 0x1000);
    }
}

#[test]
fn load_places_bytes_at_address() {
    let mut cpu = Cpu::new();
    assert_eq!(cpu.load(&[1, 2, 3], 0x100), Ok(()));
    assert_eq!(&cpu.memory[0xFF..0x104], &[0, 1, 2, 3, 0]);
    assert_eq!(cpu.load(&[9, 9], 0x3FFE), Ok(()));
    assert_eq!(cpu.memory[0x3FFF], 9);
}

#[test]
fn load_refuses_data_past_the_end() {
    let mut cpu = Cpu::new();
    assert_eq!(cpu.load(&[1, 2, 3], 0x3FFE), Err(Fault::OutOfBounds { address: 0x4000, pc: 0 }));
    assert_eq!(cpu.memory[0x3FFE], 0);
    assert_eq!(cpu.load(&[1], 0x5000), Err(Fault::OutOfBounds { address: 0x5000, pc: 0 }));
}

#[test]
fn push_pop_round_trip_for_all_pairs() {
    for value in [0x0000u16, 0x1234, 0xFFFF, 0x8001] {
        for pair in [StackPair::BC, StackPair::DE, StackPair::HL] {
            let mut cpu = Cpu::new();
            cpu.sp = 0x3000;
            cpu.b = (value >> 8) as u8;
            cpu.c = value as u8;
            cpu.d = (value >> 8) as u8;
            cpu.e = value as u8;
            cpu.h = (value >> 8) as u8;
            cpu.l = value as u8;
            cpu.execute(Instruction::Push(pair)).unwrap();
            assert_eq!(cpu.sp, 0x2FFE);
            cpu.execute(Instruction::Pop(pair)).unwrap();
            assert_eq!(cpu.sp, 0x3000);
            assert_eq!((cpu.b, cpu.c, cpu.d, cpu.e, cpu.h, cpu.l), (
                (value >> 8) as u8,
                value as u8,
                (value >> 8) as u8,
                value as u8,
                (value >> 8) as u8,
                value as u8
            ));
        }
    }
}

#[test]
fn push_pop_psw_keeps_accumulator_and_flags() {
    let mut cpu = Cpu::new();
    cpu.sp = 0x2400;
    cpu.a = 0x5A;
    cpu.flags = Flags { z: true, s: false, p: true, cy: true, ac: true };
    cpu.execute(Instruction::Push(StackPair::PSW)).unwrap();
    assert_eq!(cpu.memory[0x23FF], 0x5A);
    assert_eq!(cpu.memory[0x23FE], 0x57);
    cpu.a = 0;
    cpu.flags = Flags::new();
    cpu.execute(Instruction::Pop(StackPair::PSW)).unwrap();
    assert_eq!(cpu.a, 0x5A);
    assert_eq!(cpu.flags, Flags { z: true, s: false, p: true, cy: true, ac: true });
    assert_eq!(cpu.sp, 0x2400);
}

#[test]
fn pop_into_other_pair_moves_value() {
    let mut cpu = Cpu::new();
    cpu.sp = 0x2000;
    cpu.b = 0xAB;
    cpu.c = 0xCD;
    cpu.execute(Instruction::Push(StackPair::BC)).unwrap();
    cpu.execute(Instruction::Pop(StackPair::HL)).unwrap();
    assert_eq!((cpu.h, cpu.l), (0xAB, 0xCD));
}

#[test]
fn call_then_ret_returns_after_call() {
    let mut cpu = Cpu::new();
    cpu.load(&[0xCD, 0x00, 0x10], 0x0200).unwrap();
    cpu.load(&[0xC9], 0x1000).unwrap();
    cpu.pc = 0x0200;
    cpu.sp = 0x3000;
    cpu.step().unwrap();
    assert_eq!(cpu.pc, 0x1000);
    assert_eq!(cpu.sp, 0x2FFE);
    assert_eq!(cpu.memory[0x2FFE], 0x03);
    assert_eq!(cpu.memory[0x2FFF], 0x02);
    cpu.step().unwrap();
    assert_eq!(cpu.pc, 0x0203);
    assert_eq!(cpu.sp, 0x3000);
}

fn flags_where(c: Cond, holds: bool) -> Flags {
    let mut f = Flags::new();
    match c {
        Cond::NotZero => f.z = !holds,
        Cond::Zero => f.z = holds,
        Cond::NoCarry => f.cy = !holds,
        Cond::Carry => f.cy = holds,
        Cond::ParityOdd => f.p = !holds,
        Cond::ParityEven => f.p = holds,
        Cond::Plus => f.s = !holds,
        Cond::Minus => f.s = holds,
    }
    f
}

const CONDS: [Cond; 8] = [
    Cond::NotZero,
    Cond::Zero,
    Cond::NoCarry,
    Cond::Carry,
    Cond::ParityOdd,
    Cond::ParityEven,
    Cond::Plus,
    Cond::Minus,
];

#[test]
fn conditional_jumps() {
    for c in CONDS {
        for holds in [true, false] {
            let mut cpu = Cpu::new();
            cpu.pc = 0x0100;
            cpu.sp = 0x3000;
            cpu.flags = flags_where(c, holds);
            cpu.execute(Instruction::Jcond(c, 0x0800)).unwrap();
            assert_eq!(cpu.pc, if holds { 0x0800 } else { 0x0103 });
            assert_eq!(cpu.sp, 0x3000);
        }
    }
}

#[test]
fn conditional_calls() {
    for c in CONDS {
        for holds in [true, false] {
            let mut cpu = Cpu::new();
            cpu.pc = 0x0100;
            cpu.sp = 0x3000;
            cpu.flags = flags_where(c, holds);
            cpu.execute(Instruction::Ccond(c, 0x0800)).unwrap();
            if holds {
                assert_eq!(cpu.pc, 0x0800);
                assert_eq!(cpu.sp, 0x2FFE);
                assert_eq!(cpu.memory[0x2FFE], 0x03);
                assert_eq!(cpu.memory[0x2FFF], 0x01);
            } else {
                assert_eq!(cpu.pc, 0x0103);
                assert_eq!(cpu.sp, 0x3000);
            }
        }
    }
}

#[test]
fn conditional_returns() {
    for c in CONDS {
        for holds in [true, false] {
            let mut cpu = Cpu::new();
            cpu.pc = 0x0100;
            cpu.sp = 0x2FFE;
            cpu.memory[0x2FFE] = 0x34;
            cpu.memory[0x2FFF] = 0x12;
            cpu.flags = flags_where(c, holds);
            cpu.execute(Instruction::Rcond(c)).unwrap();
            if holds {
                assert_eq!(cpu.pc, 0x1234);
                assert_eq!(cpu.sp, 0x3000);
            } else {
                assert_eq!(cpu.pc, 0x0101);
                assert_eq!(cpu.sp, 0x2FFE);
            }
        }
    }
}

#[test]
fn add_sets_carry_and_zero() {
    let mut cpu = Cpu::new();
    cpu.a = 0xF0;
    cpu.b = 0x10;
    cpu.execute(Instruction::Alu(AluOp::Add, Reg::B)).unwrap();
    assert_eq!(cpu.a, 0);
    assert!(cpu.flags.z);
    assert!(cpu.flags.cy);
    assert!(cpu.flags.p);
    assert_eq!(cpu.pc, 1);
}

#[test]
fn adc_and_sbb_use_carry() {
    let mut cpu = Cpu::new();
    cpu.a = 0x01;
    cpu.c = 0x01;
    cpu.flags.cy = true;
    cpu.execute(Instruction::Alu(AluOp::Adc, Reg::C)).unwrap();
    assert_eq!(cpu.a, 0x03);
    assert!(!cpu.flags.cy);
    cpu.flags.cy = true;
    cpu.execute(Instruction::Alu(AluOp::Sbb, Reg::C)).unwrap();
    assert_eq!(cpu.a, 0x01);
}

#[test]
fn add_from_memory_through_hl() {
    let mut cpu = Cpu::new();
    cpu.h = 0x20;
    cpu.l = 0x05;
    cpu.memory[0x2005] = 0x07;
    cpu.a = 0x03;
    cpu.execute(Instruction::Alu(AluOp::Add, Reg::M)).unwrap();
    assert_eq!(cpu.a, 0x0A);
}

#[test]
fn compare_leaves_accumulator() {
    let mut cpu = Cpu::new();
    cpu.a = 0x05;
    cpu.execute(Instruction::AluImm(AluOp::Cmp, 0x09)).unwrap();
    assert_eq!(cpu.a, 0x05);
    assert!(cpu.flags.cy);
    assert!(!cpu.flags.z);
    cpu.execute(Instruction::AluImm(AluOp::Cmp, 0x05)).unwrap();
    assert!(cpu.flags.z);
    assert!(!cpu.flags.cy);
    assert_eq!(cpu.pc, 4);
}

#[test]
fn logic_clears_carry() {
    let mut cpu = Cpu::new();
    cpu.a = 0xF0;
    cpu.flags.cy = true;
    cpu.flags.ac = true;
    cpu.execute(Instruction::AluImm(AluOp::Ana, 0x3C)).unwrap();
    assert_eq!(cpu.a, 0x30);
    assert!(!cpu.flags.cy);
    assert!(!cpu.flags.ac);
    cpu.execute(Instruction::AluImm(AluOp::Xra, 0x30)).unwrap();
    assert_eq!(cpu.a, 0);
    assert!(cpu.flags.z);
    cpu.execute(Instruction::AluImm(AluOp::Ora, 0x81)).unwrap();
    assert_eq!(cpu.a, 0x81);
    assert!(cpu.flags.s);
    assert!(cpu.flags.p);
}

#[test]
fn increment_and_decrement_keep_carry() {
    let mut cpu = Cpu::new();
    cpu.d = 0xFF;
    cpu.flags.cy = false;
    cpu.execute(Instruction::Inr(Reg::D)).unwrap();
    assert_eq!(cpu.d, 0);
    assert!(cpu.flags.z);
    assert!(cpu.flags.ac);
    assert!(!cpu.flags.cy);
    cpu.flags.cy = true;
    cpu.execute(Instruction::Dcr(Reg::D)).unwrap();
    assert_eq!(cpu.d, 0xFF);
    assert!(cpu.flags.s);
    assert!(cpu.flags.cy);
    assert!(!cpu.flags.ac);
}

#[test]
fn decimal_adjust() {
    let mut cpu = Cpu::new();
    cpu.a = 0x9B;
    cpu.execute(Instruction::Daa).unwrap();
    assert_eq!(cpu.a, 0x01);
    assert!(cpu.flags.cy);
    assert!(cpu.flags.ac);
    let mut cpu = Cpu::new();
    cpu.a = 0x38;
    cpu.execute(Instruction::AluImm(AluOp::Add, 0x45)).unwrap();
    cpu.execute(Instruction::Daa).unwrap();
    assert_eq!(cpu.a, 0x83);
    assert!(!cpu.flags.cy);
}

#[test]
fn double_add_sets_only_carry() {
    let mut cpu = Cpu::new();
    cpu.h = 0xFF;
    cpu.l = 0xFF;
    cpu.b = 0x00;
    cpu.c = 0x02;
    cpu.flags.z = true;
    cpu.execute(Instruction::Dad(Pair::BC)).unwrap();
    assert_eq!((cpu.h, cpu.l), (0x00, 0x01));
    assert!(cpu.flags.cy);
    assert!(cpu.flags.z);
}

#[test]
fn increment_pair_wraps() {
    let mut cpu = Cpu::new();
    cpu.sp = 0xFFFF;
    cpu.execute(Instruction::Inx(Pair::SP)).unwrap();
    assert_eq!(cpu.sp, 0);
    cpu.execute(Instruction::Dcx(Pair::DE)).unwrap();
    assert_eq!((cpu.d, cpu.e), (0xFF, 0xFF));
}

#[test]
fn rotates() {
    let mut cpu = Cpu::new();
    cpu.a = 0xF2;
    cpu.execute(Instruction::Rlc).unwrap();
    assert_eq!(cpu.a, 0xE5);
    assert!(cpu.flags.cy);
    cpu.a = 0xF2;
    cpu.execute(Instruction::Rrc).unwrap();
    assert_eq!(cpu.a, 0x79);
    assert!(!cpu.flags.cy);
    cpu.a = 0xB5;
    cpu.flags.cy = false;
    cpu.execute(Instruction::Ral).unwrap();
    assert_eq!(cpu.a, 0x6A);
    assert!(cpu.flags.cy);
    cpu.a = 0x6A;
    cpu.flags.cy = true;
    cpu.execute(Instruction::Rar).unwrap();
    assert_eq!(cpu.a, 0xB5);
    assert!(!cpu.flags.cy);
}

#[test]
fn complement_and_carry_ops() {
    let mut cpu = Cpu::new();
    cpu.a = 0x51;
    cpu.execute(Instruction::Cma).unwrap();
    assert_eq!(cpu.a, 0xAE);
    cpu.execute(Instruction::Stc).unwrap();
    assert!(cpu.flags.cy);
    cpu.execute(Instruction::Cmc).unwrap();
    assert!(!cpu.flags.cy);
}

#[test]
fn memory_transfers() {
    let mut cpu = Cpu::new();
    cpu.a = 0x42;
    cpu.execute(Instruction::Sta(0x2000)).unwrap();
    assert_eq!(cpu.memory[0x2000], 0x42);
    cpu.a = 0;
    cpu.execute(Instruction::Lda(0x2000)).unwrap();
    assert_eq!(cpu.a, 0x42);
    cpu.h = 0x12;
    cpu.l = 0x34;
    cpu.execute(Instruction::Shld(0x2100)).unwrap();
    assert_eq!((cpu.memory[0x2100], cpu.memory[0x2101]), (0x34, 0x12));
    cpu.h = 0;
    cpu.l = 0;
    cpu.execute(Instruction::Lhld(0x2100)).unwrap();
    assert_eq!((cpu.h, cpu.l), (0x12, 0x34));
    cpu.execute(Instruction::Lxi(Pair::DE, 0x2100)).unwrap();
    cpu.execute(Instruction::Ldax(Pair::DE)).unwrap();
    assert_eq!(cpu.a, 0x34);
    cpu.execute(Instruction::Stax(Pair::DE)).unwrap();
    cpu.execute(Instruction::Mvi(Reg::M, 0x99)).unwrap();
    assert_eq!(cpu.memory[0x1234], 0x99);
    cpu.execute(Instruction::Mov(Reg::C, Reg::M)).unwrap();
    assert_eq!(cpu.c, 0x99);
}

#[test]
fn exchanges() {
    let mut cpu = Cpu::new();
    cpu.d = 1;
    cpu.e = 2;
    cpu.h = 3;
    cpu.l = 4;
    cpu.execute(Instruction::Xchg).unwrap();
    assert_eq!((cpu.d, cpu.e, cpu.h, cpu.l), (3, 4, 1, 2));
    cpu.sp = 0x3000;
    cpu.memory[0x3000] = 0xCD;
    cpu.memory[0x3001] = 0xAB;
    cpu.execute(Instruction::Xthl).unwrap();
    assert_eq!((cpu.h, cpu.l), (0xAB, 0xCD));
    assert_eq!((cpu.memory[0x3000], cpu.memory[0x3001]), (2, 1));
    cpu.execute(Instruction::Sphl).unwrap();
    assert_eq!(cpu.sp, 0xABCD);
}

#[test]
fn pchl_and_restart() {
    let mut cpu = Cpu::new();
    cpu.h = 0x01;
    cpu.l = 0x23;
    cpu.execute(Instruction::Pchl).unwrap();
    assert_eq!(cpu.pc, 0x0123);
    cpu.sp = 0x2000;
    cpu.execute(Instruction::Rst(3)).unwrap();
    assert_eq!(cpu.pc, 0x18);
    assert_eq!((cpu.memory[0x1FFE], cpu.memory[0x1FFF]), (0x24, 0x01));
}

#[test]
fn halt_stops_progress() {
    let mut cpu = Cpu::new();
    cpu.load(&[0x76, 0x3C], 0).unwrap();
    cpu.step().unwrap();
    assert!(cpu.halted);
    assert_eq!(cpu.pc, 1);
    assert_eq!(cpu.step(), Ok(None));
    assert_eq!(cpu.pc, 1);
    assert_eq!(cpu.a, 0);
}

#[test]
fn port_accesses_go_to_the_host() {
    let mut cpu = Cpu::new();
    cpu.a = 0x77;
    assert_eq!(cpu.execute(Instruction::Out(4)), Ok(Some(PortAccess::Write { port: 4, value: 0x77 })));
    assert_eq!(cpu.execute(Instruction::In(1)), Ok(Some(PortAccess::Read { port: 1 })));
    assert_eq!(cpu.pc, 4);
}

#[test]
fn interrupt_control() {
    let mut cpu = Cpu::new();
    cpu.sp = 0x2400;
    cpu.pc = 0x0100;
    assert_eq!(cpu.interrupt(2), Ok(false));
    assert_eq!(cpu.pc, 0x0100);
    cpu.execute(Instruction::Ei).unwrap();
    assert!(cpu.interrupts_enabled);
    cpu.halted = true;
    assert_eq!(cpu.interrupt(2), Ok(true));
    assert_eq!(cpu.pc, 0x10);
    assert!(!cpu.halted);
    assert!(!cpu.interrupts_enabled);
    assert_eq!((cpu.memory[0x23FE], cpu.memory[0x23FF]), (0x01, 0x01));
    cpu.execute(Instruction::Ei).unwrap();
    cpu.execute(Instruction::Di).unwrap();
    assert!(!cpu.interrupts_enabled);
}

#[test]
fn stack_faults_leave_state_alone() {
    let mut cpu = Cpu::new();
    cpu.sp = 1;
    assert_eq!(
        cpu.execute(Instruction::Push(StackPair::BC)),
        Err(Fault::StackOutOfBounds { sp: 1, pc: 0 })
    );
    assert_eq!(cpu.sp, 1);
    cpu.sp = 0x3FFF;
    assert_eq!(cpu.execute(Instruction::Pop(StackPair::BC)), Err(Fault::StackOutOfBounds { sp: 0x3FFF, pc: 0 }));
    assert_eq!(cpu.sp, 0x3FFF);
    cpu.sp = 0x4002;
    assert_eq!(cpu.execute(Instruction::Call(0x10)), Err(Fault::StackOutOfBounds { sp: 0x4002, pc: 0 }));
    assert_eq!(cpu.pc, 0);
}

#[test]
fn out_of_bounds_faults() {
    let mut cpu = Cpu::new();
    cpu.pc = 0x10;
    assert_eq!(cpu.execute(Instruction::Jmp(0x4000)), Err(Fault::OutOfBounds { address: 0x4000, pc: 0x10 }));
    assert_eq!(cpu.pc, 0x10);
    assert_eq!(cpu.execute(Instruction::Sta(0x5000)), Err(Fault::OutOfBounds { address: 0x5000, pc: 0x10 }));
    assert_eq!(cpu.execute(Instruction::Shld(0x3FFF)), Err(Fault::OutOfBounds { address: 0x4000, pc: 0x10 }));
    cpu.h = 0x80;
    assert_eq!(
        cpu.execute(Instruction::Mov(Reg::A, Reg::M)),
        Err(Fault::OutOfBounds { address: 0x8000, pc: 0x10 })
    );
    assert_eq!(cpu.pc, 0x10);
}

#[test]
fn step_reports_unknown_opcode() {
    let mut cpu = Cpu::new();
    cpu.load(&[0x00, 0xDD], 0).unwrap();
    cpu.step().unwrap();
    assert_eq!(cpu.step(), Err(Fault::UnknownOpcode { opcode: 0xDD, pc: 1 }));
    assert_eq!(cpu.pc, 1);
}

#[test]
fn fetch_decodes_at_pc() {
    let mut cpu = Cpu::new();
    cpu.load(&[0x00, 0x06, 0x7F], 0).unwrap();
    cpu.pc = 1;
    assert_eq!(cpu.fetch(), Ok((Instruction::Mvi(Reg::B, 0x7F), 2)));
    cpu.pc = 0x3FFF;
    assert_eq!(cpu.fetch(), Ok((Instruction::Nop, 1)));
}
