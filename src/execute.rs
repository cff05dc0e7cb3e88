//! Fetch, decode and execute: effective-address resolution, dispatch to the instruction
//! semantics, and cycle accounting, each stated over the machine model.

use vstd::prelude::*;
use crate::addressing::AddressingMode;
use crate::arithmetic::{adc_spec, compare_spec, sbc_spec};
use crate::bus::{Bus, word_at};
use crate::cpu::Cpu;
use crate::flags::set_flag_spec;
use crate::flow_control::{branch_spec, brk_spec, jsr_spec, rti_spec, rts_spec, same_page, with_pc};
use crate::inc_dec::{dex_spec, dey_spec, inx_spec, iny_spec};
use crate::instructions::{Instruction, decode_spec, get_opcode};
use crate::load_store::{lda_spec, ldx_spec, ldy_spec};
use crate::logic::{and_spec, bit_spec, eor_spec, ora_spec};
use crate::model::{Machine, Regs, with_regs};
use crate::shift_rotate::{
    asl_value, high_bit, low_bit, lsr_value, rol_value, ror_value, shifted_acc_spec, shifted_spec,
};
use crate::stack::{pha_spec, php_spec, pla_spec, plp_spec};
use crate::status::{Flag, flag_of, with_zn};
use crate::transfer::{tax_spec, tay_spec, tsx_spec, txa_spec, txs_spec, tya_spec};

verus! {

/// Where an instruction's operand is, and where the next instruction starts.
pub struct Operand {
    /// The effective address; for Immediate and Relative, the address of the operand byte.
    pub addr: u16,
    /// `PC` after the operand bytes.
    pub next_pc: u16,
    /// Whether indexing carried into another page.
    pub crossed: bool,
}

/// The little-endian word at zero-page address `p`, the high byte wrapping within page zero.
pub open spec fn zero_page_word(mem: Map<u16, u8>, p: u8) -> u16 {
    (mem[p as u16] as int + 256 * mem[p.wrapping_add(1) as u16] as int) as u16
}

/// The target of an indirect jump through `ptr`, with the NMOS page-wrap: the high byte
/// comes from the start of the same page when `ptr` ends a page.
pub open spec fn indirect_target(mem: Map<u16, u8>, ptr: u16) -> u16 {
    (mem[ptr] as int + 256 * mem[(ptr & 0xFF00) | (ptr.wrapping_add(1) & 0x00FF)] as int) as u16
}

/// The operand of `mode` for an instruction whose operand bytes start at `pc`.
pub open spec fn resolve_spec(mem: Map<u16, u8>, pc: u16, x: u8, y: u8, mode: AddressingMode) -> Operand {
    let op = mem[pc];
    let one = pc.wrapping_add(1);
    let two = pc.wrapping_add(2);
    match mode {
        AddressingMode::Implied | AddressingMode::Accumulator => Operand {
            addr: 0,
            next_pc: pc,
            crossed: false,
        },
        AddressingMode::Immediate | AddressingMode::Relative => Operand {
            addr: pc,
            next_pc: one,
            crossed: false,
        },
        AddressingMode::ZeroPage => Operand { addr: op as u16, next_pc: one, crossed: false },
        AddressingMode::ZeroPageX => Operand {
            addr: op.wrapping_add(x) as u16,
            next_pc: one,
            crossed: false,
        },
        AddressingMode::ZeroPageY => Operand {
            addr: op.wrapping_add(y) as u16,
            next_pc: one,
            crossed: false,
        },
        AddressingMode::Absolute => Operand { addr: word_at(mem, pc), next_pc: two, crossed: false },
        AddressingMode::AbsoluteX => {
            let base = word_at(mem, pc);
            let a = base.wrapping_add(x as u16);
            Operand { addr: a, next_pc: two, crossed: !same_page(base, a) }
        },
        AddressingMode::AbsoluteY => {
            let base = word_at(mem, pc);
            let a = base.wrapping_add(y as u16);
            Operand { addr: a, next_pc: two, crossed: !same_page(base, a) }
        },
        AddressingMode::IndirectX => Operand {
            addr: zero_page_word(mem, op.wrapping_add(x)),
            next_pc: one,
            crossed: false,
        },
        AddressingMode::IndirectY => {
            let base = zero_page_word(mem, op);
            let a = base.wrapping_add(y as u16);
            Operand { addr: a, next_pc: one, crossed: !same_page(base, a) }
        },
        AddressingMode::Indirect => Operand {
            addr: indirect_target(mem, word_at(mem, pc)),
            next_pc: two,
            crossed: false,
        },
    }
}

/// A read-modify-write on the byte at `addr`: `result` written back, registers `r`.
pub open spec fn rmw_spec(s: Machine, addr: u16, result: u8, r: Regs) -> Machine {
    Machine { regs: r, mem: s.mem.insert(addr, result) }
}

/// A shift or rotation: on A in Accumulator mode, else on the byte at `addr`.
pub open spec fn shift_spec(s: Machine, mode: AddressingMode, addr: u16, result: u8, carry: bool) -> Machine {
    if mode == AddressingMode::Accumulator {
        with_regs(s, shifted_acc_spec(s.regs, result, carry))
    } else {
        rmw_spec(s, addr, result, shifted_spec(s.regs, result, carry))
    }
}

/// The byte a shift or rotation works on: A in Accumulator mode, else the byte at `addr`.
pub open spec fn shift_source(s: Machine, mode: AddressingMode, addr: u16) -> u8 {
    if mode == AddressingMode::Accumulator {
        s.regs.a
    } else {
        s.mem[addr]
    }
}

/// A conditional branch with the offset byte at `addr`.
pub open spec fn branch_on(s: Machine, condition: bool, addr: u16) -> (Machine, u8) {
    let (r, extra) = branch_spec(s.regs, condition, s.mem[addr]);
    (with_regs(s, r), extra)
}

/// The effect of `ins` with `PC` already past its operand and `addr` its effective
/// address, and the cycles a taken branch adds.
pub open spec fn perform_spec(s: Machine, ins: Instruction, mode: AddressingMode, addr: u16) -> (Machine, u8) {
    let r = s.regs;
    let m = s.mem[addr];
    let c = flag_of(r.p, Flag::Carry);
    let src = shift_source(s, mode, addr);
    match ins {
        Instruction::Adc => (with_regs(s, adc_spec(r, m)), 0),
        Instruction::Sbc => (with_regs(s, sbc_spec(r, m)), 0),
        Instruction::Cmp => (with_regs(s, compare_spec(r, r.a, m)), 0),
        Instruction::Cpx => (with_regs(s, compare_spec(r, r.x, m)), 0),
        Instruction::Cpy => (with_regs(s, compare_spec(r, r.y, m)), 0),
        Instruction::And => (with_regs(s, and_spec(r, m)), 0),
        Instruction::Ora => (with_regs(s, ora_spec(r, m)), 0),
        Instruction::Eor => (with_regs(s, eor_spec(r, m)), 0),
        Instruction::Bit => (with_regs(s, bit_spec(r, m)), 0),
        Instruction::Lda => (with_regs(s, lda_spec(r, m)), 0),
        Instruction::Ldx => (with_regs(s, ldx_spec(r, m)), 0),
        Instruction::Ldy => (with_regs(s, ldy_spec(r, m)), 0),
        Instruction::Sta => (Machine { mem: s.mem.insert(addr, r.a), ..s }, 0),
        Instruction::Stx => (Machine { mem: s.mem.insert(addr, r.x), ..s }, 0),
        Instruction::Sty => (Machine { mem: s.mem.insert(addr, r.y), ..s }, 0),
        Instruction::Tax => (with_regs(s, tax_spec(r)), 0),
        Instruction::Tay => (with_regs(s, tay_spec(r)), 0),
        Instruction::Txa => (with_regs(s, txa_spec(r)), 0),
        Instruction::Tya => (with_regs(s, tya_spec(r)), 0),
        Instruction::Tsx => (with_regs(s, tsx_spec(r)), 0),
        Instruction::Txs => (with_regs(s, txs_spec(r)), 0),
        Instruction::Inx => (with_regs(s, inx_spec(r)), 0),
        Instruction::Dex => (with_regs(s, dex_spec(r)), 0),
        Instruction::Iny => (with_regs(s, iny_spec(r)), 0),
        Instruction::Dey => (with_regs(s, dey_spec(r)), 0),
        Instruction::Inc => {
            let v = m.wrapping_add(1);
            (rmw_spec(s, addr, v, Regs { p: with_zn(r.p, v), ..r }), 0)
        },
        Instruction::Dec => {
            let v = m.wrapping_sub(1);
            (rmw_spec(s, addr, v, Regs { p: with_zn(r.p, v), ..r }), 0)
        },
        Instruction::Asl => (shift_spec(s, mode, addr, asl_value(src), high_bit(src)), 0),
        Instruction::Lsr => (shift_spec(s, mode, addr, lsr_value(src), low_bit(src)), 0),
        Instruction::Rol => (shift_spec(s, mode, addr, rol_value(src, c), high_bit(src)), 0),
        Instruction::Ror => (shift_spec(s, mode, addr, ror_value(src, c), low_bit(src)), 0),
        Instruction::Pha => (pha_spec(s), 0),
        Instruction::Pla => (pla_spec(s), 0),
        Instruction::Php => (php_spec(s), 0),
        Instruction::Plp => (plp_spec(s), 0),
        Instruction::Jmp => (with_pc(s, addr), 0),
        Instruction::Jsr => (jsr_spec(s, addr), 0),
        Instruction::Rts => (rts_spec(s), 0),
        Instruction::Brk => (brk_spec(s), 0),
        Instruction::Rti => (rti_spec(s), 0),
        Instruction::Bcc => branch_on(s, !c, addr),
        Instruction::Bcs => branch_on(s, c, addr),
        Instruction::Beq => branch_on(s, flag_of(r.p, Flag::Zero), addr),
        Instruction::Bne => branch_on(s, !flag_of(r.p, Flag::Zero), addr),
        Instruction::Bmi => branch_on(s, flag_of(r.p, Flag::Negative), addr),
        Instruction::Bpl => branch_on(s, !flag_of(r.p, Flag::Negative), addr),
        Instruction::Bvc => branch_on(s, !flag_of(r.p, Flag::Overflow), addr),
        Instruction::Bvs => branch_on(s, flag_of(r.p, Flag::Overflow), addr),
        Instruction::Clc => (with_regs(s, set_flag_spec(r, Flag::Carry, false)), 0),
        Instruction::Sec => (with_regs(s, set_flag_spec(r, Flag::Carry, true)), 0),
        Instruction::Cli => (with_regs(s, set_flag_spec(r, Flag::InterruptDisable, false)), 0),
        Instruction::Sei => (with_regs(s, set_flag_spec(r, Flag::InterruptDisable, true)), 0),
        Instruction::Cld => (with_regs(s, set_flag_spec(r, Flag::DecimalMode, false)), 0),
        Instruction::Sed => (with_regs(s, set_flag_spec(r, Flag::DecimalMode, true)), 0),
        Instruction::Clv => (with_regs(s, set_flag_spec(r, Flag::Overflow, false)), 0),
        Instruction::Nop | Instruction::Illegal => (s, 0),
    }
}

/// One whole instruction from machine state `s`: the opcode at `PC` is decoded, the operand
/// resolved, the instruction performed. Also the cycles it takes: base cycles, plus one
/// when the entry has the page-crossing flag and indexing crossed a page, plus what a taken
/// branch adds.
pub open spec fn step_spec(s: Machine) -> (Machine, u8) {
    let (ins, mode, base, page) = decode_spec(s.mem[s.regs.pc]);
    let o = resolve_spec(s.mem, s.regs.pc.wrapping_add(1), s.regs.x, s.regs.y, mode);
    let (t, extra) = perform_spec(with_pc(s, o.next_pc), ins, mode, o.addr);
    (t, (base + (if page && o.crossed { 1u8 } else { 0u8 }) + extra) as u8)
}

/// The cycles an instruction takes: from two up to nine.
pub proof fn lemma_step_cycles(s: Machine)
    ensures
        2 <= step_spec(s).1 <= 9,
{
    let (ins, mode, base, page) = decode_spec(s.mem[s.regs.pc]);
    assert(2 <= base <= 7) by {
        let code = s.mem[s.regs.pc];
        assert(decode_spec(code).2 >= 2 && decode_spec(code).2 <= 7);
    }
}

/// A status byte that PLP or RTI installs has Unused set.
proof fn lemma_restored_has_unused(cur: u8, v: u8)
    ensures
        flag_of(crate::model::restored_status(cur, v), Flag::Unused),
{
    let q = crate::model::restored_status(cur, v);
    assert(q & 0x20 != 0) by (bit_vector)
        requires q == (v & 0xCF) | (cur & 0x10) | 0x20;
}

/// No instruction clears Unused once it is set.
proof fn lemma_perform_keeps_unused(s: Machine, ins: Instruction, mode: AddressingMode, addr: u16)
    requires
        flag_of(s.regs.p, Flag::Unused),
    ensures
        flag_of(perform_spec(s, ins, mode, addr).0.regs.p, Flag::Unused),
{
    broadcast use crate::status::lemma_flag_update;

    match ins {
        Instruction::Plp => lemma_restored_has_unused(s.regs.p, crate::model::pulled(s)),
        Instruction::Rti => lemma_restored_has_unused(s.regs.p, crate::model::pulled(s)),
        _ => {},
    }
}

/// Once Unused is set, no instruction clears it: every instruction either leaves the status
/// byte's Unused bit alone or, pulling a status byte, forces it on.
pub proof fn lemma_step_keeps_unused(s: Machine)
    requires
        flag_of(s.regs.p, Flag::Unused),
    ensures
        flag_of(step_spec(s).0.regs.p, Flag::Unused),
{
    let (ins, mode, base, page) = decode_spec(s.mem[s.regs.pc]);
    let o = resolve_spec(s.mem, s.regs.pc.wrapping_add(1), s.regs.x, s.regs.y, mode);
    lemma_perform_keeps_unused(with_pc(s, o.next_pc), ins, mode, o.addr);
}

impl<B: Bus> Cpu<B> {
    fn read_zero_page_word(&mut self, ptr: u8) -> (r: u16)
        ensures
            r == zero_page_word(old(self).bus.mem(), ptr),
            final(self).machine() == old(self).machine(),
            final(self).keeps_clock_of(old(self)),
    {
        let low = self.bus.read(ptr as u16) as u16;
        let high = self.bus.read(ptr.wrapping_add(1) as u16) as u16;
        proof { crate::bus::lemma_pack_word(low, high); }
        (high << 8) | low
    }

    fn read_indirect_target(&mut self, ptr: u16) -> (r: u16)
        ensures
            r == indirect_target(old(self).bus.mem(), ptr),
            final(self).machine() == old(self).machine(),
            final(self).keeps_clock_of(old(self)),
    {
        let low = self.bus.read(ptr) as u16;
        let high = self.bus.read((ptr & 0xFF00) | (ptr.wrapping_add(1) & 0x00FF)) as u16;
        proof { crate::bus::lemma_pack_word(low, high); }
        (high << 8) | low
    }

    /// Resolves the operand of `mode` at `PC`, advancing `PC` past the operand bytes.
    /// Returns the effective address and whether indexing crossed a page.
    pub fn resolve_operand(&mut self, mode: AddressingMode) -> (r: (u16, bool))
        ensures
            ({
                let o = resolve_spec(old(self).bus.mem(), old(self).pc, old(self).x, old(self).y, mode);
                &&& r == (o.addr, o.crossed)
                &&& final(self).regs() == (crate::model::Regs { pc: o.next_pc, ..old(self).regs() })
            }),
            final(self).bus.mem() == old(self).bus.mem(),
            final(self).keeps_clock_of(old(self)),
    {
        match mode {
            AddressingMode::Implied | AddressingMode::Accumulator => (0, false),
            AddressingMode::Immediate | AddressingMode::Relative => {
                let a = self.pc;
                self.pc = self.pc.wrapping_add(1);
                (a, false)
            },
            AddressingMode::ZeroPage => {
                let op = self.bus.read(self.pc);
                self.pc = self.pc.wrapping_add(1);
                (op as u16, false)
            },
            AddressingMode::ZeroPageX => {
                let op = self.bus.read(self.pc);
                self.pc = self.pc.wrapping_add(1);
                (op.wrapping_add(self.x) as u16, false)
            },
            AddressingMode::ZeroPageY => {
                let op = self.bus.read(self.pc);
                self.pc = self.pc.wrapping_add(1);
                (op.wrapping_add(self.y) as u16, false)
            },
            AddressingMode::Absolute => {
                let a = self.bus.read_word(self.pc);
                self.pc = self.pc.wrapping_add(2);
                (a, false)
            },
            AddressingMode::AbsoluteX => {
                let base = self.bus.read_word(self.pc);
                self.pc = self.pc.wrapping_add(2);
                let a = base.wrapping_add(self.x as u16);
                (a, (base & 0xFF00) != (a & 0xFF00))
            },
            AddressingMode::AbsoluteY => {
                let base = self.bus.read_word(self.pc);
                self.pc = self.pc.wrapping_add(2);
                let a = base.wrapping_add(self.y as u16);
                (a, (base & 0xFF00) != (a & 0xFF00))
            },
            AddressingMode::IndirectX => {
                let op = self.bus.read(self.pc);
                self.pc = self.pc.wrapping_add(1);
                let a = self.read_zero_page_word(op.wrapping_add(self.x));
                (a, false)
            },
            AddressingMode::IndirectY => {
                let op = self.bus.read(self.pc);
                self.pc = self.pc.wrapping_add(1);
                let base = self.read_zero_page_word(op);
                let a = base.wrapping_add(self.y as u16);
                (a, (base & 0xFF00) != (a & 0xFF00))
            },
            AddressingMode::Indirect => {
                let ptr = self.bus.read_word(self.pc);
                self.pc = self.pc.wrapping_add(2);
                let a = self.read_indirect_target(ptr);
                (a, false)
            },
        }
    }
    /// Carries out `ins` with `PC` already past its operand and `addr` the effective
    /// address; returns the cycles a taken branch adds. Read-modify-write instructions read
    /// the byte, compute, and write the result back.
    pub fn perform(&mut self, ins: Instruction, mode: AddressingMode, addr: u16) -> (extra: u8)
        ensures
            (final(self).machine(), extra) == perform_spec(old(self).machine(), ins, mode, addr),
            final(self).keeps_clock_of(old(self)),
    {
        match ins {
            Instruction::Adc => {
                let v = self.bus.read(addr);
                self.adc(v);
                0
            },
            Instruction::Sbc => {
                let v = self.bus.read(addr);
                self.sbc(v);
                0
            },
            Instruction::Cmp => {
                let v = self.bus.read(addr);
                self.cmp(v);
                0
            },
            Instruction::Cpx => {
                let v = self.bus.read(addr);
                self.cpx(v);
                0
            },
            Instruction::Cpy => {
                let v = self.bus.read(addr);
                self.cpy(v);
                0
            },
            Instruction::And => {
                let v = self.bus.read(addr);
                self.and(v);
                0
            },
            Instruction::Ora => {
                let v = self.bus.read(addr);
                self.ora(v);
                0
            },
            Instruction::Eor => {
                let v = self.bus.read(addr);
                self.eor(v);
                0
            },
            Instruction::Bit => {
                let v = self.bus.read(addr);
                self.bit(v);
                0
            },
            Instruction::Lda => {
                let v = self.bus.read(addr);
                self.lda(v);
                0
            },
            Instruction::Ldx => {
                let v = self.bus.read(addr);
                self.ldx(v);
                0
            },
            Instruction::Ldy => {
                let v = self.bus.read(addr);
                self.ldy(v);
                0
            },
            Instruction::Sta => {
                let v = self.sta();
                self.bus.write(addr, v);
                0
            },
            Instruction::Stx => {
                let v = self.stx();
                self.bus.write(addr, v);
                0
            },
            Instruction::Sty => {
                let v = self.sty();
                self.bus.write(addr, v);
                0
            },
            Instruction::Tax => {
                self.tax();
                0
            },
            Instruction::Tay => {
                self.tay();
                0
            },
            Instruction::Txa => {
                self.txa();
                0
            },
            Instruction::Tya => {
                self.tya();
                0
            },
            Instruction::Tsx => {
                self.tsx();
                0
            },
            Instruction::Txs => {
                self.txs();
                0
            },
            Instruction::Inx => {
                self.inx();
                0
            },
            Instruction::Dex => {
                self.dex();
                0
            },
            Instruction::Iny => {
                self.iny();
                0
            },
            Instruction::Dey => {
                self.dey();
                0
            },
            Instruction::Pha => {
                self.pha();
                0
            },
            Instruction::Pla => {
                self.pla();
                0
            },
            Instruction::Php => {
                self.php();
                0
            },
            Instruction::Plp => {
                self.plp();
                0
            },
            Instruction::Rts => {
                self.rts();
                0
            },
            Instruction::Brk => {
                self.brk();
                0
            },
            Instruction::Rti => {
                self.rti();
                0
            },
            Instruction::Clc => {
                self.clc();
                0
            },
            Instruction::Sec => {
                self.sec();
                0
            },
            Instruction::Cli => {
                self.cli();
                0
            },
            Instruction::Sei => {
                self.sei();
                0
            },
            Instruction::Cld => {
                self.cld();
                0
            },
            Instruction::Sed => {
                self.sed();
                0
            },
            Instruction::Clv => {
                self.clv();
                0
            },
            Instruction::Inc => {
                let v = self.bus.read(addr);
                let r = self.inc_mem(v);
                self.bus.write(addr, r);
                0
            },
            Instruction::Dec => {
                let v = self.bus.read(addr);
                let r = self.dec_mem(v);
                self.bus.write(addr, r);
                0
            },
            Instruction::Asl => {
                if matches!(mode, AddressingMode::Accumulator) {
                    self.asl_acc();
                } else {
                    let v = self.bus.read(addr);
                    let r = self.asl_mem(v);
                    self.bus.write(addr, r);
                }
                0
            },
            Instruction::Lsr => {
                if matches!(mode, AddressingMode::Accumulator) {
                    self.lsr_acc();
                } else {
                    let v = self.bus.read(addr);
                    let r = self.lsr_mem(v);
                    self.bus.write(addr, r);
                }
                0
            },
            Instruction::Rol => {
                if matches!(mode, AddressingMode::Accumulator) {
                    self.rol_acc();
                } else {
                    let v = self.bus.read(addr);
                    let r = self.rol_mem(v);
                    self.bus.write(addr, r);
                }
                0
            },
            Instruction::Ror => {
                if matches!(mode, AddressingMode::Accumulator) {
                    self.ror_acc();
                } else {
                    let v = self.bus.read(addr);
                    let r = self.ror_mem(v);
                    self.bus.write(addr, r);
                }
                0
            },
            Instruction::Jmp => {
                self.jmp(addr);
                0
            },
            Instruction::Jsr => {
                self.jsr(addr);
                0
            },
            Instruction::Bcc => {
                let offset = self.bus.read(addr);
                self.bcc(offset)
            },
            Instruction::Bcs => {
                let offset = self.bus.read(addr);
                self.bcs(offset)
            },
            Instruction::Beq => {
                let offset = self.bus.read(addr);
                self.beq(offset)
            },
            Instruction::Bne => {
                let offset = self.bus.read(addr);
                self.bne(offset)
            },
            Instruction::Bmi => {
                let offset = self.bus.read(addr);
                self.bmi(offset)
            },
            Instruction::Bpl => {
                let offset = self.bus.read(addr);
                self.bpl(offset)
            },
            Instruction::Bvc => {
                let offset = self.bus.read(addr);
                self.bvc(offset)
            },
            Instruction::Bvs => {
                let offset = self.bus.read(addr);
                self.bvs(offset)
            },
            Instruction::Nop | Instruction::Illegal => 0,
        }
    }
    /// Runs one instruction without ticking the bus; returns its cycle count.
    fn run_instruction(&mut self) -> (n: u8)
        ensures
            (final(self).machine(), n) == step_spec(old(self).machine()),
            2 <= n <= 9,
            final(self).keeps_clock_of(old(self)),
    {
        let code = self.bus.read(self.pc);
        self.pc = self.pc.wrapping_add(1);
        let op = get_opcode(code);
        let (addr, crossed) = self.resolve_operand(op.mode);
        let extra = self.perform(op.instruction, op.mode, addr);
        let penalty: u8 = if op.page_boundary_cycle && crossed {
            1
        } else {
            0
        };
        proof { lemma_step_cycles(old(self).machine()); }
        op.cycles + penalty + extra
    }

    /// Runs exactly one instruction end to end and ticks the bus once for each of its
    /// cycles; returns the cycle count. The countdown of `step` is left as it was.
    pub fn execute_instruction(&mut self) -> (n: u8)
        ensures
            (final(self).machine(), n) == step_spec(old(self).machine()),
            final(self).bus.ticks() == old(self).bus.ticks() + n,
            final(self).cycles == old(self).cycles,
    {
        let n = self.run_instruction();
        let mut i: u8 = 0;
        while i < n
            invariant
                i <= n,
                (self.machine(), n) == step_spec(old(self).machine()),
                self.bus.ticks() == old(self).bus.ticks() + i,
                self.cycles == old(self).cycles,
            decreases n - i,
        {
            self.bus.tick();
            i = i + 1;
        }
        n
    }

    /// Advances one cycle and ticks the bus once. When no cycles are owed, the next
    /// instruction runs whole first and its cycle count becomes the countdown; either way
    /// the countdown then drops by one.
    pub fn step(&mut self)
        ensures
            old(self).cycles == 0 ==> final(self).machine() == step_spec(old(self).machine()).0
                && final(self).cycles == step_spec(old(self).machine()).1 - 1,
            old(self).cycles > 0 ==> final(self).machine() == old(self).machine()
                && final(self).cycles == old(self).cycles - 1,
            final(self).bus.ticks() == old(self).bus.ticks() + 1,
    {
        if self.cycles == 0 {
            self.cycles = self.run_instruction();
        }
        self.bus.tick();
        self.cycles = self.cycles - 1;
    }
}

} // verus!
