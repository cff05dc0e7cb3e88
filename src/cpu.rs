//! The processor: its registers, the owned bus, reset, and the stack operations.

use vstd::prelude::*;
use crate::bus::{Bus, word_at};
use crate::model::{
    Machine, Regs, push_spec, pulled, pull_spec, push_word_spec, pulled_word, pull_word_spec,
};
use crate::status::StatusRegister;

verus! {

/// The status byte that reset installs: I and Unused set, every other flag clear.
pub const RESET_STATUS: u8 = 0x24;

/// Address of the reset vector.
pub const RESET_VECTOR: u16 = 0xFFFC;

/// Address of the IRQ and BRK vector.
pub const IRQ_VECTOR: u16 = 0xFFFE;

/// Address of the NMI vector.
pub const NMI_VECTOR: u16 = 0xFFFA;

/// A 6502 driving the bus it owns.
pub struct Cpu<B> {
    pub a: u8,
    pub x: u8,
    pub y: u8,
    pub sp: u8,
    pub pc: u16,
    pub status: StatusRegister,
    /// Cycles still owed by the current instruction, counted down by `step`.
    pub cycles: u8,
    pub bus: B,
}

impl<B: Bus> Cpu<B> {
    /// The registers as a value.
    pub open spec fn regs(&self) -> Regs {
        Regs { a: self.a, x: self.x, y: self.y, sp: self.sp, pc: self.pc, p: self.status@ }
    }

    /// Registers and memory as a value.
    pub open spec fn machine(&self) -> Machine {
        Machine { regs: self.regs(), mem: self.bus.mem() }
    }

    /// Whether `self` has the bus and the cycle countdown of `prev`: only registers differ.
    pub open spec fn keeps_bus_of(&self, prev: &Self) -> bool {
        self.bus == prev.bus && self.cycles == prev.cycles
    }

    /// Whether `self` differs from `prev` in registers and memory at most: the bus was
    /// not ticked and the countdown is the same.
    pub open spec fn keeps_clock_of(&self, prev: &Self) -> bool {
        self.bus.ticks() == prev.bus.ticks() && self.cycles == prev.cycles
    }

    /// A processor around `bus` with all registers zero, the status register as
    /// `StatusRegister::new` makes it, and no cycles owed. `reset` must run before the
    /// first instruction.
    pub fn new(bus: B) -> (r: Self)
        ensures
            r.a == 0 && r.x == 0 && r.y == 0 && r.sp == 0 && r.pc == 0,
            r.status@ == crate::status::INITIAL_STATUS,
            r.cycles == 0,
            r.bus == bus,
    {
        Cpu { a: 0, x: 0, y: 0, sp: 0, pc: 0, status: StatusRegister::new(), cycles: 0, bus }
    }

    /// The reset sequence: `PC` from the reset vector, `SP = 0xFD`, I and Unused set and
    /// every other flag clear, `A = X = Y = 0`, and seven cycles owed.
    pub fn reset(&mut self)
        ensures
            final(self).regs() == (Regs {
                a: 0,
                x: 0,
                y: 0,
                sp: 0xFD,
                pc: word_at(old(self).bus.mem(), RESET_VECTOR),
                p: RESET_STATUS,
            }),
            final(self).bus.mem() == old(self).bus.mem(),
            final(self).bus.ticks() == old(self).bus.ticks(),
            final(self).cycles == 7,
    {
        self.pc = self.bus.read_word(RESET_VECTOR);
        self.sp = 0xFD;
        self.status.from_byte(RESET_STATUS);
        self.a = 0;
        self.x = 0;
        self.y = 0;
        self.cycles = 7;
    }

    /// The little-endian word at `address` (high byte from `address + 1`, wrapping).
    pub fn read_word(&mut self, address: u16) -> (r: u16)
        ensures
            r == word_at(old(self).bus.mem(), address),
            final(self).machine() == old(self).machine(),
            final(self).keeps_clock_of(old(self)),
    {
        self.bus.read_word(address)
    }

    /// Writes `value` at `0x0100 + SP`, then decrements `SP` modulo 256.
    pub fn push_byte(&mut self, value: u8)
        ensures
            final(self).machine() == push_spec(old(self).machine(), value),
            final(self).keeps_clock_of(old(self)),
    {
        self.bus.write(0x0100 + self.sp as u16, value);
        self.sp = self.sp.wrapping_sub(1);
    }

    /// Increments `SP` modulo 256, then reads `0x0100 + SP`.
    pub fn pull_byte(&mut self) -> (r: u8)
        ensures
            r == pulled(old(self).machine()),
            final(self).machine() == pull_spec(old(self).machine()),
            final(self).keeps_clock_of(old(self)),
    {
        self.sp = self.sp.wrapping_add(1);
        self.bus.read(0x0100 + self.sp as u16)
    }

    /// Pushes the high byte of `value`, then the low byte.
    pub fn push_word(&mut self, value: u16)
        ensures
            final(self).machine() == push_word_spec(old(self).machine(), value),
            final(self).keeps_clock_of(old(self)),
    {
        self.push_byte((value >> 8) as u8);
        self.push_byte((value & 0xFF) as u8);
    }

    /// Pulls the low byte, then the high byte.
    pub fn pull_word(&mut self) -> (r: u16)
        ensures
            r == pulled_word(old(self).machine()),
            final(self).machine() == pull_word_spec(old(self).machine()),
            final(self).keeps_clock_of(old(self)),
    {
        let low = self.pull_byte() as u16;
        let high = self.pull_byte() as u16;
        proof { crate::bus::lemma_pack_word(low, high); }
        (high << 8) | low
    }
}

} // verus!
