//! Reset, cycle accounting, addressing modes, the stack, interrupts, and exhaustive checks
//! of the arithmetic, comparison and rotation rules.

use mos6502::addressing::AddressingMode;
use mos6502::bus::{Bus, SimpleBus};
use mos6502::instructions::{get_opcode, Instruction};
use mos6502::status::{Flag, StatusRegister};
use mos6502::Cpu;

fn boot(program: &[u8]) -> Cpu<SimpleBus> {
    let mut bus = SimpleBus::new();
    bus.load(0x8000, program);
    bus.write(0xFFFC, 0x00);
    bus.write(0xFFFD, 0x80);
    let mut cpu = Cpu::new(bus);
    cpu.reset();
    cpu
}

#[test]
fn new_cpu_is_zeroed_and_owes_nothing() {
    let cpu = Cpu::new(SimpleBus::new());
    assert_eq!((cpu.a, cpu.x, cpu.y, cpu.sp, cpu.pc, cpu.cycles), (0, 0, 0, 0, 0, 0));
    assert_eq!(cpu.status.to_byte(), 0x34);
}

#[test]
fn reset_loads_vector_and_fixed_registers() {
    let mut bus = SimpleBus::new();
    bus.write(0xFFFC, 0x34);
    bus.write(0xFFFD, 0x12);
    let mut cpu = Cpu::new(bus);
    cpu.a = 9;
    cpu.x = 9;
    cpu.y = 9;
    cpu.reset();
    assert_eq!(cpu.pc, 0x1234);
    assert_eq!((cpu.a, cpu.x, cpu.y, cpu.sp), (0, 0, 0, 0xFD));
    assert_eq!(cpu.status.to_byte(), 0x24);
    assert_eq!(cpu.cycles, 7);
    cpu.cycles = 0;
    cpu.reset();
    assert_eq!(cpu.cycles, 7);
}

#[test]
fn step_consumes_reset_cycles_then_runs_instructions() {
    let mut cpu = boot(&[0xA9, 0x42, 0xE8]);
    for _ in 0..7 {
        assert_eq!(cpu.pc, 0x8000);
        cpu.step();
    }
    assert_eq!(cpu.cycles, 0);
    cpu.step();
    assert_eq!(cpu.a, 0x42);
    assert_eq!(cpu.cycles, 1);
    cpu.step();
    assert_eq!(cpu.cycles, 0);
    assert_eq!(cpu.x, 0);
    cpu.step();
    assert_eq!(cpu.x, 1);
    assert_eq!(cpu.cycles, 1);
}

#[test]
fn illegal_opcode_is_a_two_cycle_no_op() {
    let mut cpu = boot(&[0x02]);
    let before = (cpu.a, cpu.x, cpu.y, cpu.sp, cpu.status.to_byte());
    assert_eq!(cpu.execute_instruction(), 2);
    assert_eq!(cpu.pc, 0x8001);
    assert_eq!(before, (cpu.a, cpu.x, cpu.y, cpu.sp, cpu.status.to_byte()));
}

#[test]
fn every_opcode_length_matches_its_mode() {
    let mut legal = 0;
    for code in 0..=255u8 {
        let op = get_opcode(code);
        assert_eq!(op.code, code);
        assert!((1..=3).contains(&op.bytes));
        assert_eq!(op.bytes, 1 + op.mode.operand_bytes());
        assert!((2..=7).contains(&op.cycles));
        if op.instruction != Instruction::Illegal {
            legal += 1;
        } else {
            assert_eq!(op.mnemonic, "???");
            assert_eq!(op.mode, AddressingMode::Implied);
            assert_eq!(op.cycles, 2);
        }
    }
    assert_eq!(legal, 151);
}

#[test]
fn absolute_x_page_cross_adds_a_cycle_for_loads_only() {
    let mut cpu = boot(&[0xA2, 0x01, 0xBD, 0xFF, 0x20, 0xBD, 0x00, 0x20, 0x9D, 0xFF, 0x20]);
    cpu.bus.write(0x2100, 0x77);
    cpu.execute_instruction();
    assert_eq!(cpu.execute_instruction(), 5);
    assert_eq!(cpu.a, 0x77);
    assert_eq!(cpu.execute_instruction(), 4);
    assert_eq!(cpu.execute_instruction(), 5);
    assert_eq!(cpu.bus.read(0x2100), 0x00);
}

#[test]
fn indirect_y_adds_y_after_the_pointer_and_pays_for_crossing() {
    // LDY #$10; LDA ($40),Y with the pointer at $40 naming $20F8.
    let mut cpu = boot(&[0xA0, 0x10, 0xB1, 0x40]);
    cpu.bus.write(0x0040, 0xF8);
    cpu.bus.write(0x0041, 0x20);
    cpu.bus.write(0x2108, 0x99);
    cpu.execute_instruction();
    assert_eq!(cpu.execute_instruction(), 6);
    assert_eq!(cpu.a, 0x99);
}

#[test]
fn indirect_x_pointer_wraps_in_zero_page() {
    // LDX #$01; LDA ($FE,X): pointer $FF, high byte from $00.
    let mut cpu = boot(&[0xA2, 0x01, 0xA1, 0xFE]);
    cpu.bus.write(0x00FF, 0x34);
    cpu.bus.write(0x0000, 0x12);
    cpu.bus.write(0x1234, 0x5A);
    cpu.execute_instruction();
    assert_eq!(cpu.execute_instruction(), 6);
    assert_eq!(cpu.a, 0x5A);
}

#[test]
fn zero_page_x_wraps_within_page_zero() {
    // LDX #$20; LDA $F0,X reads $10.
    let mut cpu = boot(&[0xA2, 0x20, 0xB5, 0xF0]);
    cpu.bus.write(0x0010, 0x66);
    cpu.bus.write(0x0110, 0x11);
    cpu.execute_instruction();
    cpu.execute_instruction();
    assert_eq!(cpu.a, 0x66);
}

#[test]
fn stack_wraps_and_overwrites_the_earliest_push() {
    let mut cpu = boot(&[]);
    cpu.sp = 0xFF;
    for i in 0..257u32 {
        cpu.push_byte(i as u8);
    }
    assert_eq!(cpu.sp, 0xFE);
    // The 257th push landed where the first did.
    assert_eq!(cpu.bus.read(0x01FF), 0x00);
    assert_eq!(cpu.pull_byte(), 0x00);
    assert_eq!(cpu.sp, 0xFF);
    assert_eq!(cpu.pull_byte(), 0xFF);
    assert_eq!(cpu.sp, 0x00);
    assert_eq!(cpu.bus.read(0x0200), 0x00);
}

#[test]
fn push_word_and_pull_word_round_trip() {
    let mut cpu = boot(&[]);
    let sp = cpu.sp;
    cpu.push_word(0xBEEF);
    assert_eq!(cpu.bus.read(0x0100 + sp as u16), 0xBE);
    assert_eq!(cpu.bus.read(0x0100 + sp.wrapping_sub(1) as u16), 0xEF);
    assert_eq!(cpu.pull_word(), 0xBEEF);
    assert_eq!(cpu.sp, sp);
}

#[test]
fn adc_matches_formula_on_every_input() {
    let mut cpu = boot(&[]);
    for a in 0..=255u8 {
        for m in 0..=255u8 {
            for c in [false, true] {
                cpu.a = a;
                cpu.status.set(Flag::Carry, c);
                cpu.adc(m);
                let sum = a as u16 + m as u16 + c as u16;
                assert_eq!(cpu.a as u16, sum % 256);
                assert_eq!(cpu.status.get(Flag::Carry), sum > 255);
                let same_sign = (a & 0x80) == (m & 0x80);
                assert_eq!(cpu.status.get(Flag::Overflow), same_sign && (a & 0x80) != (cpu.a & 0x80));
                assert_eq!(cpu.status.get(Flag::Zero), cpu.a == 0);
                assert_eq!(cpu.status.get(Flag::Negative), cpu.a >= 0x80);
            }
        }
    }
}

#[test]
fn sbc_is_adc_of_the_complement() {
    let mut cpu = boot(&[]);
    cpu.a = 0x50;
    cpu.status.set(Flag::Carry, true);
    cpu.sbc(0xB0);
    // 0x50 - 0xB0 = -0x60: result 0xA0, borrow (C clear), signed overflow.
    assert_eq!(cpu.a, 0xA0);
    assert!(!cpu.status.get(Flag::Carry));
    assert!(cpu.status.get(Flag::Overflow));
    assert!(cpu.status.get(Flag::Negative));
}

#[test]
fn cmp_flags_on_every_input() {
    let mut cpu = boot(&[]);
    for a in 0..=255u8 {
        for m in 0..=255u8 {
            cpu.a = a;
            cpu.cmp(m);
            assert_eq!(cpu.status.get(Flag::Carry), a >= m);
            assert_eq!(cpu.status.get(Flag::Zero), a == m);
            assert_eq!(cpu.status.get(Flag::Negative), a.wrapping_sub(m) >= 0x80);
            assert_eq!(cpu.a, a);
        }
    }
}

#[test]
fn rotations_undo_each_other_through_carry() {
    let mut cpu = boot(&[]);
    for x in 0..=255u8 {
        for c in [false, true] {
            cpu.status.set(Flag::Carry, c);
            let r = cpu.rol_mem(x);
            assert_eq!(cpu.ror_mem(r), x);
            assert_eq!(cpu.status.get(Flag::Carry), c);
            cpu.status.set(Flag::Carry, c);
            let r = cpu.ror_mem(x);
            assert_eq!(cpu.rol_mem(r), x);
            assert_eq!(cpu.status.get(Flag::Carry), c);
        }
    }
}

#[test]
fn lsr_always_clears_negative() {
    let mut cpu = boot(&[]);
    for x in 0..=255u8 {
        cpu.status.set(Flag::Negative, true);
        let r = cpu.lsr_mem(x);
        assert_eq!(r, x >> 1);
        assert!(!cpu.status.get(Flag::Negative));
        assert_eq!(cpu.status.get(Flag::Carry), x & 1 == 1);
        cpu.a = x;
        cpu.status.set(Flag::Negative, true);
        cpu.lsr_acc();
        assert!(!cpu.status.get(Flag::Negative));
    }
}

#[test]
fn pack_then_unpack_keeps_every_flag() {
    for b in 0..=255u8 {
        let mut s = StatusRegister::new();
        s.from_byte(b);
        let mut t = StatusRegister::new();
        t.from_byte(s.to_byte());
        for f in [
            Flag::Carry,
            Flag::Zero,
            Flag::InterruptDisable,
            Flag::DecimalMode,
            Flag::Break,
            Flag::Unused,
            Flag::Overflow,
            Flag::Negative,
        ] {
            assert_eq!(t.get(f), s.get(f));
        }
        assert_eq!(t.to_byte(), b);
    }
}

#[test]
fn bit_copies_bits_seven_and_six_and_keeps_a() {
    let mut cpu = boot(&[]);
    cpu.a = 0x01;
    cpu.bit(0xC0);
    assert!(cpu.status.get(Flag::Zero));
    assert!(cpu.status.get(Flag::Negative));
    assert!(cpu.status.get(Flag::Overflow));
    assert_eq!(cpu.a, 0x01);
}

#[test]
fn txs_leaves_flags_alone() {
    let mut cpu = boot(&[0xA2, 0x00, 0xA2, 0x80, 0x9A]);
    cpu.execute_instruction();
    cpu.execute_instruction();
    let p = cpu.status.to_byte();
    cpu.execute_instruction();
    assert_eq!(cpu.sp, 0x80);
    assert_eq!(cpu.status.to_byte(), p);
}

#[test]
fn rmw_instructions_write_back() {
    // ASL $10; ROR $11 with C set by the ASL; INC $12; DEC $13.
    let mut cpu = boot(&[0x06, 0x10, 0x66, 0x11, 0xE6, 0x12, 0xC6, 0x13]);
    cpu.bus.write(0x10, 0x81);
    cpu.bus.write(0x11, 0x02);
    cpu.bus.write(0x12, 0xFF);
    cpu.bus.write(0x13, 0x00);
    assert_eq!(cpu.execute_instruction(), 5);
    assert_eq!(cpu.bus.read(0x10), 0x02);
    assert!(cpu.status.get(Flag::Carry));
    cpu.execute_instruction();
    assert_eq!(cpu.bus.read(0x11), 0x81);
    cpu.execute_instruction();
    assert_eq!(cpu.bus.read(0x12), 0x00);
    assert!(cpu.status.get(Flag::Zero));
    cpu.execute_instruction();
    assert_eq!(cpu.bus.read(0x13), 0xFF);
    assert!(cpu.status.get(Flag::Negative));
}

#[test]
fn irq_is_masked_by_i_and_nmi_is_not() {
    let mut cpu = boot(&[]);
    cpu.bus.write(0xFFFE, 0x00);
    cpu.bus.write(0xFFFF, 0x90);
    cpu.bus.write(0xFFFA, 0x00);
    cpu.bus.write(0xFFFB, 0xA0);
    assert!(cpu.status.get(Flag::InterruptDisable));
    assert!(!cpu.irq());
    assert_eq!(cpu.pc, 0x8000);
    cpu.status.set(Flag::InterruptDisable, false);
    cpu.status.set(Flag::Break, true);
    let sp = cpu.sp;
    assert!(cpu.irq());
    assert_eq!(cpu.pc, 0x9000);
    assert!(cpu.status.get(Flag::InterruptDisable));
    assert_eq!(cpu.bus.read(0x0100 + sp as u16), 0x80);
    assert_eq!(cpu.bus.read(0x0100 + sp.wrapping_sub(1) as u16), 0x00);
    // B is clear and Unused set in the pushed copy.
    assert_eq!(cpu.bus.read(0x0100 + sp.wrapping_sub(2) as u16) & 0x30, 0x20);
    cpu.nmi();
    assert_eq!(cpu.pc, 0xA000);
    assert_eq!(cpu.sp, sp.wrapping_sub(6));
}

#[test]
fn get_memory_returns_the_requested_bytes() {
    let mut bus = SimpleBus::new();
    bus.load(0x0200, &[1, 2, 3, 4]);
    assert_eq!(bus.get_memory(0x0201, 2), vec![2, 3]);
    assert_eq!(bus.get_memory(0xFFFF, 1), vec![0]);
}

#[test]
fn mnemonics_name_their_instructions() {
    assert_eq!(get_opcode(0x00).mnemonic, "BRK");
    assert_eq!(get_opcode(0x6C).mnemonic, "JMP");
    assert_eq!(get_opcode(0x6C).mode, AddressingMode::Indirect);
    assert_eq!(get_opcode(0xB1).mnemonic, "LDA");
    assert!(get_opcode(0xB1).page_boundary_cycle);
    assert_eq!(Instruction::Tsx.mnemonic(), "TSX");
}
