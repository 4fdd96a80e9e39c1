use rustboy::cart::Cart;
use rustboy::cpu::Cpu;
use rustboy::interrupt::{ImeState, InterruptController};
use rustboy::memory::Memory;

fn bus() -> Memory {
    Memory::new([0u8; 256], Cart::new(vec![0u8; 0x8000]))
}

#[test]
fn lowest_bit_has_priority() {
    let mut memory = bus();
    memory.write(0xFFFF, 0b0000_0011).unwrap();
    memory.write(0xFF0F, 0b0000_0011).unwrap();
    let mut ic = InterruptController::new();
    ic.set_master_enable(true);
    assert_eq!(ic.pending(&memory), Some((0, 0x0040)));
}

#[test]
fn vectors_follow_bit_position() {
    let mut ic = InterruptController::new();
    ic.set_master_enable(true);
    for bit in 0..5u8 {
        let mut memory = bus();
        memory.write(0xFFFF, 0x1F).unwrap();
        memory.write(0xFF0F, 1 << bit).unwrap();
        assert_eq!(ic.pending(&memory), Some((bit, 0x40 + 8 * bit as u16)));
    }
    let mut memory = bus();
    memory.write(0xFFFF, 0xE0).unwrap();
    memory.write(0xFF0F, 0xE0).unwrap();
    assert_eq!(ic.pending(&memory), None);
}

#[test]
fn nothing_pending_without_master_enable() {
    let mut memory = bus();
    memory.write(0xFFFF, 0x01).unwrap();
    memory.write(0xFF0F, 0x01).unwrap();
    let ic = InterruptController::new();
    assert_eq!(ic.pending(&memory), None);
}

#[test]
fn enable_and_flag_must_both_be_set() {
    let mut memory = bus();
    memory.write(0xFFFF, 0b0000_0100).unwrap();
    memory.write(0xFF0F, 0b0000_0010).unwrap();
    let mut ic = InterruptController::new();
    ic.set_master_enable(true);
    assert_eq!(ic.pending(&memory), None);
}

#[test]
fn ei_takes_effect_after_the_next_instruction() {
    let mut memory = bus();
    // EI ; INC A ; INC A at 0xC000
    memory.write(0xC000, 0xFB).unwrap();
    memory.write(0xC001, 0x3C).unwrap();
    memory.write(0xC002, 0x3C).unwrap();
    // The handler at 0x0040 lies in the all-zero boot ROM, so it starts with a NOP.
    memory.write(0xFFFF, 0x01).unwrap();
    memory.write(0xFF0F, 0x01).unwrap();
    let mut cpu = Cpu::new(memory);
    cpu.regs.pc = 0xC000;
    cpu.regs.sp = 0xDFF0;
    cpu.step().unwrap();
    assert_eq!(cpu.interrupts.state, ImeState::EnableArmed);
    cpu.step().unwrap();
    assert_eq!(cpu.a(), 1);
    assert_eq!(cpu.interrupts.state, ImeState::Enabled);
    // The interrupt is dispatched before the next fetch: 20 cycles plus the NOP at 0x0040.
    assert_eq!(cpu.step().unwrap(), 24);
    assert_eq!(cpu.regs.pc, 0x0041);
    assert_eq!(cpu.interrupts.state, ImeState::Disabled);
    assert_eq!(cpu.regs.sp, 0xDFEE);
    assert_eq!(cpu.memory.read(0xDFEF).unwrap(), 0xC0);
    assert_eq!(cpu.memory.read(0xDFEE).unwrap(), 0x02);
}

#[test]
fn di_disables_at_once() {
    let mut memory = bus();
    memory.write(0xC000, 0xF3).unwrap();
    let mut cpu = Cpu::new(memory);
    cpu.interrupts.set_master_enable(true);
    cpu.regs.pc = 0xC000;
    cpu.step().unwrap();
    assert_eq!(cpu.interrupts.state, ImeState::Disabled);
    assert!(!cpu.interrupts.master_enabled());
}

#[test]
fn service_pushes_pc_and_jumps() {
    let mut cpu = Cpu::new(bus());
    cpu.regs.pc = 0x1234;
    cpu.regs.sp = 0xFFFE;
    cpu.interrupts.set_master_enable(true);
    cpu.service(0x0048).unwrap();
    assert_eq!(cpu.regs.pc, 0x0048);
    assert_eq!(cpu.regs.sp, 0xFFFC);
    assert_eq!(cpu.memory.read(0xFFFD).unwrap(), 0x12);
    assert_eq!(cpu.memory.read(0xFFFC).unwrap(), 0x34);
    assert!(!cpu.interrupts.master_enabled());
}

#[test]
fn service_interrupts_charges_dispatch_cycles() {
    let mut memory = bus();
    memory.write(0xFFFF, 0b0000_0110).unwrap();
    memory.write(0xFF0F, 0b0000_0100).unwrap();
    let mut cpu = Cpu::new(memory);
    cpu.regs.pc = 0xC000;
    cpu.regs.sp = 0xDFF0;
    assert_eq!(cpu.service_interrupts().unwrap(), 0);
    cpu.interrupts.set_master_enable(true);
    assert_eq!(cpu.service_interrupts().unwrap(), 20);
    assert_eq!(cpu.regs.pc, 0x0050);
}
