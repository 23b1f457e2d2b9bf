use feo_cpu::alu::{alu, inc, shift, AluOp, ShiftOp};
use feo_cpu::bytes::ByteExt;
use feo_cpu::cpu::{Cpu, StepError};
use feo_cpu::memory::Mmu;

fn machine(program: &[u8]) -> (Cpu, Mmu) {
    let mut mmu = Mmu::new();
    mmu.load(0x0100, program);
    let mut cpu = Cpu::new();
    cpu.r.pc = 0x0100;
    (cpu, mmu)
}

#[test]
fn nop_advances_pc_by_one() {
    let (mut cpu, mut mmu) = machine(&[0x00]);
    cpu.r.a = 0x12;
    cpu.r.f = 0xb0;
    cpu.r.sp = 0xfffe;
    let before = cpu.r;
    assert_eq!(cpu.step(&mut mmu), Ok(()));
    assert_eq!(cpu.r.pc, 0x0101);
    assert_eq!((cpu.clock.m, cpu.clock.t), (1, 4));
    let mut expected = before;
    expected.pc = 0x0101;
    assert_eq!(cpu.r, expected);
}

#[test]
fn add_overflow_sets_carry() {
    // LD A,0xF0; LD B,0x20; ADD A,B
    let (mut cpu, mut mmu) = machine(&[0x3e, 0xf0, 0x06, 0x20, 0x80]);
    for _ in 0..3 {
        assert_eq!(cpu.step(&mut mmu), Ok(()));
    }
    assert_eq!(cpu.r.a, 0x10);
    assert!(cpu.r.f.has_bit_set(4));
    assert!(!cpu.r.f.has_bit_set(7));
    assert!(!cpu.r.f.has_bit_set(6));
    assert_eq!((cpu.clock.m, cpu.clock.t), (1, 4));
}

#[test]
fn add_overflow_to_zero_sets_zero_and_carry() {
    // LD A,0x80; ADD A,0x80
    let (mut cpu, mut mmu) = machine(&[0x3e, 0x80, 0xc6, 0x80]);
    assert_eq!(cpu.step(&mut mmu), Ok(()));
    assert_eq!(cpu.step(&mut mmu), Ok(()));
    assert_eq!(cpu.r.a, 0x00);
    assert_eq!(cpu.r.f, 0x90);
    assert_eq!(cpu.clock.m, 2);
}

#[test]
fn sub_borrow_sets_subtract_and_carry() {
    // LD A,0x10; SUB 0x20
    let (mut cpu, mut mmu) = machine(&[0x3e, 0x10, 0xd6, 0x20]);
    assert_eq!(cpu.step(&mut mmu), Ok(()));
    assert_eq!(cpu.step(&mut mmu), Ok(()));
    assert_eq!(cpu.r.a, 0xf0);
    assert!(cpu.r.f.has_bit_set(6));
    assert!(cpu.r.f.has_bit_set(4));
    assert!(!cpu.r.f.has_bit_set(7));
}

#[test]
fn alu_exact_values() {
    assert_eq!(alu(AluOp::Add, 0x0f, 0x01, false), (0x10, 0x20));
    assert_eq!(alu(AluOp::Adc, 0xff, 0x00, true), (0x00, 0xb0));
    assert_eq!(alu(AluOp::Sub, 0x10, 0x01, false), (0x0f, 0x60));
    assert_eq!(alu(AluOp::Sbc, 0x00, 0x00, true), (0xff, 0x70));
    assert_eq!(alu(AluOp::And, 0xf0, 0x0f, false), (0x00, 0xa0));
    assert_eq!(alu(AluOp::Xor, 0xff, 0x0f, false), (0xf0, 0x00));
    assert_eq!(alu(AluOp::Or, 0x00, 0x00, true), (0x00, 0x80));
    assert_eq!(alu(AluOp::Cp, 0x42, 0x42, false), (0x42, 0xc0));
    assert_eq!(inc(0xff, true), (0x00, 0xb0));
    assert_eq!(shift(ShiftOp::Swap, 0xab, false), (0xba, 0x00));
    assert_eq!(shift(ShiftOp::Rlc, 0x80, false), (0x01, 0x10));
    assert_eq!(shift(ShiftOp::Srl, 0x01, false), (0x00, 0x90));
}

#[test]
fn unresolved_opcode_is_an_error() {
    let (mut cpu, mut mmu) = machine(&[0xd3]);
    let before = cpu;
    assert_eq!(
        cpu.step(&mut mmu),
        Err(StepError::UnresolvedOpcode { opcode: 0xd3, address: 0x0100 })
    );
    assert_eq!(cpu, before);
}

#[test]
fn call_and_return_use_the_stack() {
    // LD SP,0xFFFE; CALL 0x0200 ... at 0x0200: RET
    let (mut cpu, mut mmu) = machine(&[0x31, 0xfe, 0xff, 0xcd, 0x00, 0x02]);
    mmu.write(0x0200, 0xc9);
    assert_eq!(cpu.step(&mut mmu), Ok(()));
    assert_eq!(cpu.r.sp, 0xfffe);
    assert_eq!(cpu.step(&mut mmu), Ok(()));
    assert_eq!(cpu.r.pc, 0x0200);
    assert_eq!(cpu.r.sp, 0xfffc);
    assert_eq!(mmu.read(0xfffd), 0x01);
    assert_eq!(mmu.read(0xfffc), 0x06);
    assert_eq!(cpu.clock.m, 6);
    assert_eq!(cpu.step(&mut mmu), Ok(()));
    assert_eq!(cpu.r.pc, 0x0106);
    assert_eq!(cpu.r.sp, 0xfffe);
    assert_eq!(cpu.clock.m, 4);
}

#[test]
fn push_pop_af_masks_low_nibble() {
    // LD BC,0x12FF; PUSH BC; POP AF
    let (mut cpu, mut mmu) = machine(&[0x01, 0xff, 0x12, 0xc5, 0xf1]);
    cpu.r.sp = 0xd000;
    for _ in 0..3 {
        assert_eq!(cpu.step(&mut mmu), Ok(()));
    }
    assert_eq!(cpu.r.a, 0x12);
    assert_eq!(cpu.r.f, 0xf0);
    assert_eq!(cpu.r.sp, 0xd000);
}

#[test]
fn conditional_jump_costs_depend_on_outcome() {
    // XOR A (zero set); JR NZ,+2 (not taken); JR Z,-4 (taken)
    let (mut cpu, mut mmu) = machine(&[0xaf, 0x20, 0x02, 0x28, 0xfc]);
    assert_eq!(cpu.step(&mut mmu), Ok(()));
    assert_eq!(cpu.step(&mut mmu), Ok(()));
    assert_eq!(cpu.r.pc, 0x0103);
    assert_eq!(cpu.clock.m, 2);
    assert_eq!(cpu.step(&mut mmu), Ok(()));
    assert_eq!(cpu.r.pc, 0x0101);
    assert_eq!(cpu.clock.m, 3);
}

#[test]
fn add_hl_uses_bit_eleven_and_fifteen() {
    // LD HL,0x8FFF; LD DE,0x7001; ADD HL,DE
    let (mut cpu, mut mmu) = machine(&[0x21, 0xff, 0x8f, 0x11, 0x01, 0x70, 0x19]);
    cpu.r.f = 0x80;
    for _ in 0..3 {
        assert_eq!(cpu.step(&mut mmu), Ok(()));
    }
    assert_eq!(cpu.r.read_hl(), 0x0000);
    assert_eq!(cpu.r.f, 0xb0);
    assert_eq!(cpu.clock.m, 2);
}

#[test]
fn extended_bit_set_res() {
    // LD HL,0xC000; SET 3,(HL); BIT 3,(HL); RES 3,(HL); BIT 3,(HL)
    let (mut cpu, mut mmu) =
        machine(&[0x21, 0x00, 0xc0, 0xcb, 0xde, 0xcb, 0x5e, 0xcb, 0x9e, 0xcb, 0x5e]);
    assert_eq!(cpu.step(&mut mmu), Ok(()));
    assert_eq!(cpu.step(&mut mmu), Ok(()));
    assert_eq!(mmu.read(0xc000), 0x08);
    assert_eq!(cpu.clock.m, 4);
    assert_eq!(cpu.step(&mut mmu), Ok(()));
    assert!(!cpu.r.f.has_bit_set(7));
    assert_eq!(cpu.clock.m, 3);
    assert_eq!(cpu.step(&mut mmu), Ok(()));
    assert_eq!(mmu.read(0xc000), 0x00);
    assert_eq!(cpu.step(&mut mmu), Ok(()));
    assert!(cpu.r.f.has_bit_set(7));
    assert!(cpu.r.f.has_bit_set(5));
    assert_eq!(cpu.r.pc, 0x010b);
}

#[test]
fn load_through_hl_increment() {
    // LD HL,0xC000; LD A,0x5A; LD (HL+),A; LD A,(HL-)... reads 0xC001
    let (mut cpu, mut mmu) = machine(&[0x21, 0x00, 0xc0, 0x3e, 0x5a, 0x22, 0x3a]);
    mmu.write(0xc001, 0x77);
    for _ in 0..4 {
        assert_eq!(cpu.step(&mut mmu), Ok(()));
    }
    assert_eq!(mmu.read(0xc000), 0x5a);
    assert_eq!(cpu.r.a, 0x77);
    assert_eq!(cpu.r.read_hl(), 0xc000);
}

#[test]
fn daa_adjusts_bcd_sum() {
    // LD A,0x45; ADD A,0x38; DAA
    let (mut cpu, mut mmu) = machine(&[0x3e, 0x45, 0xc6, 0x38, 0x27]);
    for _ in 0..3 {
        assert_eq!(cpu.step(&mut mmu), Ok(()));
    }
    assert_eq!(cpu.r.a, 0x83);
    assert_eq!(cpu.r.f, 0x00);
}

#[test]
fn cpl_complements_accumulator() {
    // LD A,0x35; CPL
    let (mut cpu, mut mmu) = machine(&[0x3e, 0x35, 0x2f]);
    cpu.r.f = 0x90;
    assert_eq!(cpu.step(&mut mmu), Ok(()));
    assert_eq!(cpu.step(&mut mmu), Ok(()));
    assert_eq!(cpu.r.a, 0xca);
    assert_eq!(cpu.r.f, 0xf0);
}

#[test]
fn high_page_loads() {
    // LD A,0x42; LDH (0x80),A; LD A,0; LDH A,(0x80)
    let (mut cpu, mut mmu) = machine(&[0x3e, 0x42, 0xe0, 0x80, 0x3e, 0x00, 0xf0, 0x80]);
    assert_eq!(cpu.step(&mut mmu), Ok(()));
    assert_eq!(cpu.step(&mut mmu), Ok(()));
    assert_eq!(mmu.read(0xff80), 0x42);
    assert_eq!(cpu.clock.m, 3);
    assert_eq!(cpu.step(&mut mmu), Ok(()));
    assert_eq!(cpu.step(&mut mmu), Ok(()));
    assert_eq!(cpu.r.a, 0x42);
}

#[test]
fn stack_pointer_arithmetic() {
    // LD SP,0xFFF8; ADD SP,+8; LD HL,SP-1
    let (mut cpu, mut mmu) = machine(&[0x31, 0xf8, 0xff, 0xe8, 0x08, 0xf8, 0xff]);
    assert_eq!(cpu.step(&mut mmu), Ok(()));
    assert_eq!(cpu.step(&mut mmu), Ok(()));
    assert_eq!(cpu.r.sp, 0x0000);
    assert_eq!(cpu.r.f, 0x30);
    assert_eq!(cpu.clock.m, 4);
    assert_eq!(cpu.step(&mut mmu), Ok(()));
    assert_eq!(cpu.r.read_hl(), 0xffff);
    assert_eq!(cpu.r.f, 0x00);
    assert_eq!(cpu.clock.m, 3);
}

#[test]
fn store_stack_pointer() {
    // LD SP,0xABCD; LD (0xC000),SP
    let (mut cpu, mut mmu) = machine(&[0x31, 0xcd, 0xab, 0x08, 0x00, 0xc0]);
    assert_eq!(cpu.step(&mut mmu), Ok(()));
    assert_eq!(cpu.step(&mut mmu), Ok(()));
    assert_eq!(mmu.read(0xc000), 0xcd);
    assert_eq!(mmu.read(0xc001), 0xab);
    assert_eq!(cpu.clock.m, 5);
}

#[test]
fn halt_idles_until_woken() {
    // HALT; NOP
    let (mut cpu, mut mmu) = machine(&[0x76, 0x00]);
    assert_eq!(cpu.step(&mut mmu), Ok(()));
    assert!(cpu.halted);
    assert_eq!(cpu.r.pc, 0x0101);
    assert_eq!(cpu.step(&mut mmu), Ok(()));
    assert_eq!(cpu.r.pc, 0x0101);
    assert_eq!((cpu.clock.m, cpu.clock.t), (1, 4));
    cpu.halted = false;
    assert_eq!(cpu.step(&mut mmu), Ok(()));
    assert_eq!(cpu.r.pc, 0x0102);
}

#[test]
fn interrupt_enable_flag() {
    // EI; DI
    let (mut cpu, mut mmu) = machine(&[0xfb, 0xf3]);
    assert!(!cpu.ime);
    assert_eq!(cpu.step(&mut mmu), Ok(()));
    assert!(cpu.ime);
    assert_eq!(cpu.step(&mut mmu), Ok(()));
    assert!(!cpu.ime);
}

#[test]
fn rotate_accumulator_clears_zero() {
    // XOR A; RLCA
    let (mut cpu, mut mmu) = machine(&[0xaf, 0x07]);
    assert_eq!(cpu.step(&mut mmu), Ok(()));
    assert_eq!(cpu.r.f, 0x80);
    assert_eq!(cpu.step(&mut mmu), Ok(()));
    assert_eq!(cpu.r.a, 0x00);
    assert_eq!(cpu.r.f, 0x00);
}

#[test]
fn memory_load_copies_bytes() {
    let mut mmu = Mmu::new();
    mmu.load(0xfffe, &[0x11, 0x22]);
    assert_eq!(mmu.read(0xfffd), 0x00);
    assert_eq!(mmu.read(0xfffe), 0x11);
    assert_eq!(mmu.read(0xffff), 0x22);
}
