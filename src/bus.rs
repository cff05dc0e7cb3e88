//! The memory bus the processor drives, and a flat 64 KiB implementation of it.

use vstd::prelude::*;

verus! {

/// The byte at `a` and the byte after it (wrapping at the top of the address space),
/// read as a little-endian word.
pub open spec fn word_at(mem: Map<u16, u8>, a: u16) -> u16 {
    (mem[a] as int + 256 * mem[a.wrapping_add(1)] as int) as u16
}

/// What the processor needs of a bus.
///
/// `mem` is the byte each address yields to the processor. Reads have no effect on it, a
/// write changes the one byte written, and `tick` lets peripherals advance by one cycle
/// without changing it. `ticks` counts the cycles the bus has been ticked.
pub trait Bus {
    spec fn mem(&self) -> Map<u16, u8>;

    spec fn ticks(&self) -> nat;

    fn read(&mut self, address: u16) -> (r: u8)
        ensures
            r == old(self).mem()[address],
            final(self).mem() == old(self).mem(),
            final(self).ticks() == old(self).ticks(),
    ;

    fn write(&mut self, address: u16, value: u8)
        ensures
            final(self).mem() == old(self).mem().insert(address, value),
            final(self).ticks() == old(self).ticks(),
    ;

    /// The little-endian word at `address`, the high byte from `address + 1` (wrapping).
    fn read_word(&mut self, address: u16) -> (r: u16)
        ensures
            r == word_at(old(self).mem(), address),
            final(self).mem() == old(self).mem(),
            final(self).ticks() == old(self).ticks(),
    {
        let low = self.read(address) as u16;
        let high = self.read(address.wrapping_add(1)) as u16;
        proof {
            lemma_pack_word(low, high);
        }
        (high << 8) | low
    }

    fn tick(&mut self)
        ensures
            final(self).mem() == old(self).mem(),
            final(self).ticks() == old(self).ticks() + 1,
    ;
}

/// Two bytes packed high-then-low are the low byte plus 256 times the high byte.
pub proof fn lemma_pack_word(low: u16, high: u16)
    requires
        low < 256,
        high < 256,
    ensures
        (high << 8) | low == (low + 256 * high) as u16,
        (high << 8) | low == low + 256 * high,
{
    assert((high << 8) | low == low + 256 * high) by (bit_vector)
        requires low < 256u16, high < 256u16;
}

/// 64 KiB of plain memory, for tests and simple machines.
pub struct SimpleBus {
    memory: [u8; 0x10000],
    elapsed: Ghost<nat>,
}

impl SimpleBus {

    /// Memory cleared to zero.
    pub fn new() -> (r: Self)
        ensures
            forall|a: u16| #[trigger] r.mem()[a] == 0,
            r.ticks() == 0,
    {
        SimpleBus { memory: [0u8; 0x10000], elapsed: Ghost(0) }
    }

    /// Copies `data` into memory starting at `address`.
    pub fn load(&mut self, address: u16, data: &[u8])
        requires
            address + data@.len() <= 0x10000,
        ensures
            forall|a: u16|
                #[trigger] final(self).mem()[a] == if address <= a < address + data@.len() {
                    data@[a - address]
                } else {
                    old(self).mem()[a]
                },
            final(self).ticks() == old(self).ticks(),
    {
        proof { broadcast use vstd::array::group_array_axioms; }
        let start = address as usize;
        let mut i: usize = 0;
        while i < data.len()
            invariant
                0 <= i <= data@.len(),
                start == address,
                start + data@.len() <= 0x10000,
                self.memory@.len() == 0x10000,
                self.elapsed == old(self).elapsed,
                forall|a: int|
                    0 <= a < 0x10000 ==> #[trigger] self.memory@[a] == if start <= a < start + i {
                        data@[a - start]
                    } else {
                        old(self).memory@[a]
                    },
            decreases data@.len() - i,
        {
            self.memory[start + i] = data[i];
            i = i + 1;
        }
    }

    /// The `len` bytes of memory starting at `start`.
    pub fn get_memory(&self, start: u16, len: usize) -> (r: &[u8])
        requires
            start + len <= 0x10000,
        ensures
            r@.len() == len,
            forall|i: int| 0 <= i < len ==> #[trigger] r@[i] == self.mem()[(start + i) as u16],
    {
        proof { broadcast use vstd::array::group_array_axioms; }
        let all = self.memory.as_slice();
        vstd::slice::slice_subrange(all, start as usize, start as usize + len)
    }
}

impl Bus for SimpleBus {
    closed spec fn mem(&self) -> Map<u16, u8> {
        Map::new(|a: u16| true, |a: u16| self.memory@[a as int])
    }

    closed spec fn ticks(&self) -> nat {
        self.elapsed@
    }

    fn read(&mut self, address: u16) -> (r: u8) {
        proof { broadcast use vstd::array::group_array_axioms; }
        self.memory[address as usize]
    }

    fn write(&mut self, address: u16, value: u8) {
        proof { broadcast use vstd::array::group_array_axioms; }
        self.memory[address as usize] = value;
        proof {
            assert(self.mem() =~= old(self).mem().insert(address, value));
        }
    }

    fn tick(&mut self) {
        self.elapsed = Ghost(self.elapsed@ + 1);
    }
}

impl Default for SimpleBus {
    fn default() -> (r: Self)
        ensures
            forall|a: u16| #[trigger] r.mem()[a] == 0,
            r.ticks() == 0,
    {
        Self::new()
    }
}

} // verus!
