use rustboy::cart::Cart;
use rustboy::cpu::{decode, Cpu, Crash, Flag, Op, Reg};
use rustboy::fault::Fault;
use rustboy::memory::Memory;

fn cpu_with_program(program: &[u8]) -> Cpu {
    let memory = Memory::new([0u8; 256], Cart::new(vec![0u8; 0x8000]));
    let mut cpu = Cpu::new(memory);
    for (i, b) in program.iter().enumerate() {
        cpu.memory.write(0xC000 + i as u16, *b).unwrap();
    }
    cpu.regs.pc = 0xC000;
    cpu.regs.sp = 0xDFF0;
    cpu
}

#[test]
fn nop_advances_pc_by_one() {
    let mut cpu = cpu_with_program(&[0x00]);
    cpu.regs.a = 0x12;
    cpu.regs.b = 0x34;
    cpu.set(Flag::Carry, true);
    let before = cpu.regs;
    let cycles = cpu.step().unwrap();
    assert_eq!(cycles, 4);
    assert_eq!(cpu.regs.pc, 0xC001);
    let mut expected = before;
    expected.pc = 0xC001;
    assert_eq!(cpu.regs, expected);
    assert_eq!(cpu.operations, 1);
}

#[test]
fn xor_a_zeroes_a_and_sets_zero() {
    for a in [0x00u8, 0x01, 0x5A, 0xFF] {
        let mut cpu = cpu_with_program(&[0xAF]);
        cpu.regs.a = a;
        cpu.set(Flag::Carry, true);
        cpu.step().unwrap();
        assert_eq!(cpu.a(), 0);
        assert!(cpu.get(Flag::Zero));
        assert!(!cpu.get(Flag::Carry));
        assert_eq!(cpu.regs.pc, 0xC001);
    }
}

#[test]
fn bit_7_h_tests_the_top_bit() {
    for carry in [false, true] {
        let mut cpu = cpu_with_program(&[0xCB, 0x7C]);
        cpu.regs.h = 0x80;
        cpu.set(Flag::Carry, carry);
        cpu.set(Flag::Subtract, true);
        assert_eq!(cpu.step().unwrap(), 8);
        assert!(!cpu.get(Flag::Zero));
        assert!(!cpu.get(Flag::Subtract));
        assert!(cpu.get(Flag::HalfCarry));
        assert_eq!(cpu.get(Flag::Carry), carry);
        assert_eq!(cpu.regs.pc, 0xC002);

        let mut cpu = cpu_with_program(&[0xCB, 0x7C]);
        cpu.regs.h = 0x00;
        cpu.set(Flag::Carry, carry);
        cpu.step().unwrap();
        assert!(cpu.get(Flag::Zero));
        assert!(!cpu.get(Flag::Subtract));
        assert!(cpu.get(Flag::HalfCarry));
        assert_eq!(cpu.get(Flag::Carry), carry);
    }
}

#[test]
fn call_then_ret_restores_pc_and_sp() {
    // CALL 0xC010 at 0xC000; RET at 0xC010.
    let mut cpu = cpu_with_program(&[0xCD, 0x10, 0xC0]);
    cpu.memory.write(0xC010, 0xC9).unwrap();
    let sp = cpu.regs.sp;
    assert_eq!(cpu.step().unwrap(), 24);
    assert_eq!(cpu.regs.pc, 0xC010);
    assert_eq!(cpu.regs.sp, sp - 2);
    // The return address is pushed high byte first, at the higher address.
    assert_eq!(cpu.memory.read(sp - 1).unwrap(), 0xC0);
    assert_eq!(cpu.memory.read(sp - 2).unwrap(), 0x03);
    assert_eq!(cpu.step().unwrap(), 16);
    assert_eq!(cpu.regs.pc, 0xC003);
    assert_eq!(cpu.regs.sp, sp);
}

#[test]
fn reset_sets_post_boot_values() {
    let memory = Memory::new([0u8; 256], Cart::new(vec![0u8; 0x8000]));
    let mut cpu = Cpu::new(memory);
    cpu.reset();
    assert_eq!(cpu.a(), 0x01);
    assert_eq!(cpu.reg_f(), 0xB0);
    assert_eq!(cpu.regs.sp, 0xFFFE);
    assert_eq!(cpu.b(), 0x00);
    assert_eq!(cpu.c(), 0x13);
    assert_eq!(cpu.d(), 0x00);
    assert_eq!(cpu.e(), 0xD8);
    assert_eq!(cpu.h(), 0x01);
    assert_eq!(cpu.l(), 0x4D);
    assert_eq!(cpu.regs.pc, 0x0000);

    let mut memory = Memory::new([0u8; 256], Cart::new(vec![0u8; 0x8000]));
    memory.disable_boot_rom();
    let mut cpu = Cpu::new(memory);
    cpu.reset();
    assert_eq!(cpu.regs.pc, 0x0100);
}

#[test]
fn unknown_opcode_is_fatal() {
    let mut cpu = cpu_with_program(&[0xD3]);
    assert_eq!(
        cpu.step(),
        Err(Crash { fault: Fault::UnknownOpcode { prefix: 0, opcode: 0xD3 }, pc: 0xC000 })
    );
    let mut cpu = cpu_with_program(&[0xCB, 0x00]);
    assert_eq!(
        cpu.step(),
        Err(Crash { fault: Fault::UnknownOpcode { prefix: 0xCB, opcode: 0x00 }, pc: 0xC000 })
    );
}

#[test]
fn write_to_unmapped_address_is_fatal() {
    // LD HL,0xFE00 ; LD (HL),A
    let mut cpu = cpu_with_program(&[0x21, 0x00, 0xFE, 0x77]);
    assert_eq!(cpu.step().unwrap(), 12);
    assert_eq!(cpu.hl(), 0xFE00);
    assert_eq!(
        cpu.step(),
        Err(Crash { fault: Fault::UnmappedAddress { addr: 0xFE00 }, pc: 0xC003 })
    );
}

#[test]
fn inc_and_dec_flags() {
    // INC B ; DEC C ; DEC D
    let mut cpu = cpu_with_program(&[0x04, 0x0D, 0x15]);
    cpu.regs.b = 0x0F;
    cpu.regs.c = 0x01;
    cpu.regs.d = 0x10;
    cpu.set(Flag::Carry, true);
    cpu.step().unwrap();
    assert_eq!(cpu.b(), 0x10);
    assert!(cpu.get(Flag::HalfCarry));
    assert!(!cpu.get(Flag::Zero));
    assert!(!cpu.get(Flag::Subtract));
    assert!(cpu.get(Flag::Carry));
    cpu.step().unwrap();
    assert_eq!(cpu.c(), 0x00);
    assert!(cpu.get(Flag::Zero));
    assert!(cpu.get(Flag::Subtract));
    assert!(!cpu.get(Flag::HalfCarry));
    assert!(cpu.get(Flag::Carry));
    cpu.step().unwrap();
    assert_eq!(cpu.d(), 0x0F);
    assert!(cpu.get(Flag::HalfCarry));
    assert!(!cpu.get(Flag::Zero));
}

#[test]
fn inc_wraps_to_zero() {
    let mut cpu = cpu_with_program(&[0x3C]);
    cpu.regs.a = 0xFF;
    cpu.step().unwrap();
    assert_eq!(cpu.a(), 0);
    assert!(cpu.get(Flag::Zero));
    assert!(cpu.get(Flag::HalfCarry));
}

#[test]
fn cp_sets_compare_flags() {
    // CP 0x20 with a = 0x11: borrow out of bit 3 and a < operand.
    let mut cpu = cpu_with_program(&[0xFE, 0x20, 0xFE, 0x11, 0xFE, 0x02]);
    cpu.regs.a = 0x11;
    cpu.step().unwrap();
    assert!(!cpu.get(Flag::Zero));
    assert!(cpu.get(Flag::Subtract));
    assert!(!cpu.get(Flag::HalfCarry));
    assert!(cpu.get(Flag::Carry));
    cpu.step().unwrap();
    assert!(cpu.get(Flag::Zero));
    assert!(!cpu.get(Flag::Carry));
    cpu.step().unwrap();
    assert!(cpu.get(Flag::HalfCarry));
    assert!(!cpu.get(Flag::Carry));
    assert_eq!(cpu.a(), 0x11);
}

#[test]
fn loads_between_registers_and_memory() {
    // LD DE,0xC100 ; LD A,0x42 ; LD (HL+),A with HL from LD HL,0xC200 ; LD A,(DE)
    let mut cpu = cpu_with_program(&[
        0x11, 0x00, 0xC1, // LD DE,0xC100
        0x21, 0x00, 0xC2, // LD HL,0xC200
        0x3E, 0x42, // LD A,0x42
        0x22, // LD (HL+),A
        0x32, // LD (HL-),A
        0x47, // LD B,A
        0x1A, // LD A,(DE)
    ]);
    cpu.memory.write(0xC100, 0x99).unwrap();
    for _ in 0..7 {
        cpu.step().unwrap();
    }
    assert_eq!(cpu.memory.read(0xC200).unwrap(), 0x42);
    assert_eq!(cpu.memory.read(0xC201).unwrap(), 0x42);
    assert_eq!(cpu.hl(), 0xC200);
    assert_eq!(cpu.de(), 0xC100);
    assert_eq!(cpu.b(), 0x42);
    assert_eq!(cpu.a(), 0x99);
}

#[test]
fn high_page_loads() {
    // LD A,0x5A ; LDH (0x80),A ; LD C,0x81 ; LD (C),A ; LD A,0 ; LDH A,(0x80)
    let mut cpu = cpu_with_program(&[0x3E, 0x5A, 0xE0, 0x80, 0x0E, 0x81, 0xE2, 0x3E, 0x00, 0xF0, 0x80]);
    for _ in 0..6 {
        cpu.step().unwrap();
    }
    assert_eq!(cpu.memory.read(0xFF80).unwrap(), 0x5A);
    assert_eq!(cpu.memory.read(0xFF81).unwrap(), 0x5A);
    assert_eq!(cpu.a(), 0x5A);
}

#[test]
fn push_and_pop() {
    // PUSH BC ; POP HL
    let mut cpu = cpu_with_program(&[0xC5, 0xE1]);
    cpu.regs.b = 0x12;
    cpu.regs.c = 0x34;
    let sp = cpu.regs.sp;
    assert_eq!(cpu.step().unwrap(), 16);
    assert_eq!(cpu.memory.read(sp - 1).unwrap(), 0x12);
    assert_eq!(cpu.memory.read(sp - 2).unwrap(), 0x34);
    assert_eq!(cpu.step().unwrap(), 12);
    assert_eq!(cpu.h(), 0x12);
    assert_eq!(cpu.l(), 0x34);
    assert_eq!(cpu.regs.sp, sp);
}

#[test]
fn relative_jumps() {
    // JR -2 loops onto itself; JR NZ taken and not taken.
    let mut cpu = cpu_with_program(&[0x18, 0xFE]);
    assert_eq!(cpu.step().unwrap(), 12);
    assert_eq!(cpu.regs.pc, 0xC000);

    let mut cpu = cpu_with_program(&[0x20, 0x05]);
    cpu.set(Flag::Zero, false);
    assert_eq!(cpu.step().unwrap(), 12);
    assert_eq!(cpu.regs.pc, 0xC007);

    let mut cpu = cpu_with_program(&[0x20, 0x05]);
    cpu.set(Flag::Zero, true);
    assert_eq!(cpu.step().unwrap(), 8);
    assert_eq!(cpu.regs.pc, 0xC002);

    let mut cpu = cpu_with_program(&[0xC3, 0x34, 0x12]);
    assert_eq!(cpu.step().unwrap(), 16);
    assert_eq!(cpu.regs.pc, 0x1234);
}

#[test]
fn rotates_through_carry() {
    // RLA ; RL C
    let mut cpu = cpu_with_program(&[0x17, 0xCB, 0x11]);
    cpu.regs.a = 0x80;
    cpu.regs.c = 0x40;
    cpu.step().unwrap();
    assert_eq!(cpu.a(), 0x00);
    assert!(cpu.get(Flag::Carry));
    cpu.step().unwrap();
    assert_eq!(cpu.c(), 0x81);
    assert!(!cpu.get(Flag::Carry));
    assert!(!cpu.get(Flag::Zero));
}

#[test]
fn sixteen_bit_increments_wrap() {
    let mut cpu = cpu_with_program(&[0x13, 0x23]);
    cpu.regs.d = 0xFF;
    cpu.regs.e = 0xFF;
    cpu.regs.h = 0x12;
    cpu.regs.l = 0xFF;
    cpu.step().unwrap();
    cpu.step().unwrap();
    assert_eq!(cpu.de(), 0x0000);
    assert_eq!(cpu.hl(), 0x1300);
}

#[test]
fn decode_table() {
    assert_eq!(decode(0, 0x78), Some(Op::Ld(Reg::A, Reg::B)));
    assert_eq!(decode(0, 0x4C), Some(Op::Ld(Reg::C, Reg::H)));
    assert_eq!(decode(0, 0x76), None);
    assert_eq!(decode(0, 0x3C), Some(Op::Inc(Reg::A)));
    assert_eq!(decode(0, 0x25), Some(Op::Dec(Reg::H)));
    assert_eq!(decode(0, 0x2E), Some(Op::LdD8(Reg::L)));
    assert_eq!(decode(0, 0x36), None);
    assert_eq!(decode(0xCB, 0x7C), Some(Op::BitH(7)));
    assert_eq!(decode(0xCB, 0x11), Some(Op::RlC));
    assert_eq!(decode(0, 0xFB), Some(Op::Ei));
}

#[test]
fn store_to_ea_address() {
    // LD A,0x77 ; LD (0xC123),A
    let mut cpu = cpu_with_program(&[0x3E, 0x77, 0xEA, 0x23, 0xC1]);
    cpu.step().unwrap();
    assert_eq!(cpu.step().unwrap(), 16);
    assert_eq!(cpu.memory.read(0xC123).unwrap(), 0x77);
    assert_eq!(cpu.read_word(0xC003).unwrap(), 0xC123);
}

#[test]
fn run_steps_until_limit_or_crash() {
    let mut cpu = cpu_with_program(&[0x00, 0x3C, 0x3C, 0xD3]);
    assert_eq!(cpu.run(2), None);
    assert_eq!(cpu.regs.pc, 0xC002);
    assert_eq!(cpu.a(), 1);
    assert_eq!(
        cpu.run(10),
        Some(Crash { fault: Fault::UnknownOpcode { prefix: 0, opcode: 0xD3 }, pc: 0xC003 })
    );
    assert_eq!(cpu.a(), 2);
    assert_eq!(cpu.operations, 3);
}

#[test]
fn stack_and_vram_rows() {
    let mut cpu = cpu_with_program(&[]);
    cpu.memory.write(0xFFFE, 0xAB).unwrap();
    cpu.memory.write(0x9FFE, 0xCD).unwrap();
    let rows = cpu.stack_and_vram(2);
    assert_eq!(rows, vec![(0xFFFF, Some(0x00), Some(0x7F)), (0xFFFE, Some(0xAB), Some(0xCD))]);
}

#[test]
fn crash_leaves_the_state_as_at_the_faulting_instruction() {
    // INC A ; unknown opcode
    let mut cpu = cpu_with_program(&[0x3C, 0xD3]);
    cpu.regs.b = 0x42;
    cpu.step().unwrap();
    let regs = cpu.regs;
    let crash = cpu.step().unwrap_err();
    assert_eq!(crash.pc, 0xC001);
    assert_eq!(cpu.regs, regs);
    assert_eq!(cpu.operations, 1);
    assert_eq!(cpu.memory.read(0xC000), Ok(0x3C));
}

#[test]
fn refused_push_changes_nothing() {
    // PUSH BC with sp = 0x8001: sp - 1 is writable video RAM, sp - 2 is ROM.
    let mut cpu = cpu_with_program(&[0xC5]);
    cpu.regs.sp = 0x8001;
    cpu.regs.b = 0x12;
    let crash = cpu.step().unwrap_err();
    assert_eq!(crash, Crash { fault: Fault::UnmappedAddress { addr: 0x7FFF }, pc: 0xC000 });
    assert_eq!(cpu.memory.read(0x8000), Ok(0x7F));
    assert_eq!(cpu.regs.sp, 0x8001);
}

#[test]
fn instruction_methods_directly() {
    let mut cpu = cpu_with_program(&[0xCD, 0x00, 0xC1]);
    cpu.regs.a = 0x33;
    let before = cpu.regs;
    assert_eq!(cpu.nop(), Ok(1));
    assert_eq!(cpu.regs, before);
    assert_eq!(cpu.xor_a(), Ok(1));
    assert_eq!(cpu.a(), 0);
    assert_eq!(cpu.reg_f(), 0x80);
    cpu.regs.h = 0x7F;
    assert_eq!(cpu.bit_h(7), Ok(2));
    assert!(cpu.get(Flag::Zero));
    assert_eq!(cpu.bit_h(0), Ok(2));
    assert!(!cpu.get(Flag::Zero));
    let sp = cpu.regs.sp;
    assert_eq!(cpu.call(), Ok(0));
    assert_eq!(cpu.regs.pc, 0xC100);
    assert_eq!(cpu.ret(), Ok(0));
    assert_eq!(cpu.regs.pc, 0xC003);
    assert_eq!(cpu.regs.sp, sp);
}

#[test]
fn deep_stack_dump() {
    let cpu = cpu_with_program(&[]);
    let rows = cpu.stack_and_vram(0x200);
    assert_eq!(rows.len(), 0x200);
    assert_eq!(rows[0x1FF], (0xFE00, None, Some(0x7F)));
}
