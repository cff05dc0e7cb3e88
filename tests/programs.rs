//! Short programs run from a reset vector pointing at 0x8000.

use mos6502::bus::{Bus, SimpleBus};
use mos6502::status::Flag;
use mos6502::Cpu;

fn boot(program: &[u8]) -> Cpu<SimpleBus> {
    let mut bus = SimpleBus::new();
    bus.load(0x8000, program);
    bus.write(0xFFFC, 0x00);
    bus.write(0xFFFD, 0x80);
    let mut cpu = Cpu::new(bus);
    cpu.reset();
    cpu
}

#[test]
fn lda_immediate_zero_sets_zero_not_negative() {
    let mut cpu = boot(&[0xA9, 0x00]);
    cpu.execute_instruction();
    assert_eq!(cpu.a, 0x00);
    assert!(cpu.status.get(Flag::Zero));
    assert!(!cpu.status.get(Flag::Negative));
    assert_eq!(cpu.pc, 0x8002);
}

#[test]
fn indirect_jump_reads_high_byte_within_page() {
    let mut cpu = boot(&[0x6C, 0xFF, 0x10]);
    cpu.bus.write(0x10FF, 0x34);
    cpu.bus.write(0x1000, 0x12);
    cpu.bus.write(0x1100, 0x56);
    let cycles = cpu.execute_instruction();
    assert_eq!(cpu.pc, 0x1234);
    assert_eq!(cycles, 5);
}

#[test]
fn jsr_then_rts_returns_past_jsr_with_same_sp() {
    let mut cpu = boot(&[0x20, 0x10, 0x80]);
    cpu.bus.write(0x8010, 0x60);
    let sp_before = cpu.sp;
    assert_eq!(cpu.execute_instruction(), 6);
    assert_eq!(cpu.pc, 0x8010);
    assert_eq!(cpu.sp, sp_before.wrapping_sub(2));
    // The pushed return address is the JSR's last operand byte, high byte first.
    assert_eq!(cpu.bus.read(0x0100 + sp_before as u16), 0x80);
    assert_eq!(cpu.bus.read(0x0100 + sp_before.wrapping_sub(1) as u16), 0x02);
    assert_eq!(cpu.execute_instruction(), 6);
    assert_eq!(cpu.pc, 0x8003);
    assert_eq!(cpu.sp, sp_before);
}

#[test]
fn adc_overflow_at_signed_boundary() {
    let mut cpu = boot(&[0xA9, 0x7F, 0x18, 0x69, 0x01]);
    cpu.execute_instruction();
    cpu.execute_instruction();
    cpu.execute_instruction();
    assert_eq!(cpu.a, 0x80);
    assert!(cpu.status.get(Flag::Overflow));
    assert!(cpu.status.get(Flag::Negative));
    assert!(!cpu.status.get(Flag::Carry));
    assert!(!cpu.status.get(Flag::Zero));
}

#[test]
fn taken_branch_across_page_costs_four_cycles() {
    let mut cpu = boot(&[]);
    cpu.bus.write(0x80FD, 0xF0);
    cpu.bus.write(0x80FE, 0x05);
    cpu.pc = 0x80FD;
    cpu.status.set(Flag::Zero, true);
    let cycles = cpu.execute_instruction();
    assert_eq!(cpu.pc, 0x8104);
    assert_eq!(cycles, 4);
}

#[test]
fn untaken_branch_costs_two_cycles() {
    let mut cpu = boot(&[]);
    cpu.bus.write(0x80FD, 0xF0);
    cpu.bus.write(0x80FE, 0x05);
    cpu.pc = 0x80FD;
    cpu.status.set(Flag::Zero, false);
    let cycles = cpu.execute_instruction();
    assert_eq!(cpu.pc, 0x80FF);
    assert_eq!(cycles, 2);
}

#[test]
fn taken_branch_within_page_costs_three_cycles() {
    let mut cpu = boot(&[0xA9, 0x00, 0xF0, 0x05]);
    cpu.execute_instruction();
    assert_eq!(cpu.execute_instruction(), 3);
    assert_eq!(cpu.pc, 0x8009);
}

#[test]
fn php_then_plp_restores_flags_but_not_break() {
    let mut cpu = boot(&[0x08, 0x28]);
    cpu.status.from_byte(0xC5);
    let sp_before = cpu.sp;
    cpu.execute_instruction();
    let pushed = cpu.bus.read(0x0100 + sp_before as u16);
    assert_ne!(pushed & 0x10, 0);
    cpu.status.from_byte(0x00);
    cpu.execute_instruction();
    // Every flag of 0xC5 comes back; B keeps the value it had before PLP (clear here) and
    // Unused reads as 1.
    assert_eq!(cpu.status.to_byte(), 0xE5);
    assert_eq!(cpu.sp, sp_before);
}

#[test]
fn plp_keeps_a_set_break_flag() {
    let mut cpu = boot(&[0x28]);
    cpu.bus.write(0x01FF, 0x00);
    cpu.sp = 0xFE;
    cpu.status.set(Flag::Break, true);
    cpu.execute_instruction();
    assert!(cpu.status.get(Flag::Break));
    assert!(cpu.status.get(Flag::Unused));
    assert!(!cpu.status.get(Flag::InterruptDisable));
}

#[test]
fn brk_then_rti_returns_two_past_brk() {
    let mut cpu = boot(&[0x00, 0xEA]);
    cpu.bus.write(0xFFFE, 0x00);
    cpu.bus.write(0xFFFF, 0x90);
    cpu.bus.write(0x9000, 0x40);
    cpu.status.from_byte(0x21);
    let sp_before = cpu.sp;
    assert_eq!(cpu.execute_instruction(), 7);
    assert_eq!(cpu.pc, 0x9000);
    assert!(cpu.status.get(Flag::InterruptDisable));
    let pushed_status = cpu.bus.read(0x0100 + sp_before.wrapping_sub(2) as u16);
    assert_eq!(pushed_status, 0x31);
    assert_eq!(cpu.execute_instruction(), 6);
    assert_eq!(cpu.pc, 0x8002);
    assert_eq!(cpu.sp, sp_before);
    // The pre-BRK flags come back, I clear again and B as it was.
    assert_eq!(cpu.status.to_byte(), 0x21);
}
