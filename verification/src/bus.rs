//! The memory bus: the full 64 KiB byte-addressable space shared by the
//! execution engine and its external readers.
//!
//! The bus is plain storage with no event mechanism.  Its size equals
//! the range of a 16-bit address, so every well-typed access is in
//! bounds and neither read nor write can fail.  The code that shares
//! one bus between the engine's thread and a renderer wraps the whole
//! value in a mutual-exclusion primitive and holds it for at most one
//! access or one instruction step at a time; this crate itself sees
//! exclusive ownership.

use vstd::prelude::*;

verus! {

/// Number of addressable bytes: the full range of a 16-bit address.
pub const BUS_SIZE: usize = 0x10000;

/// The byte written by the power-on routine at the given address before
/// any program bytes are loaded: a small documented set of hardware
/// registers in the high page starts non-zero, everything else starts
/// zero.
pub open spec fn seed_byte(i: int) -> u8 {
    if i == 0xFF10 {
        0x80
    } else if i == 0xFF11 {
        0xBF
    } else if i == 0xFF12 {
        0xF3
    } else if i == 0xFF14 {
        0xBF
    } else if i == 0xFF16 {
        0xF3
    } else if i == 0xFF19 {
        0xBF
    } else if i == 0xFF1A {
        0x7F
    } else if i == 0xFF1B {
        0xFF
    } else if i == 0xFF1C {
        0x9F
    } else if i == 0xFF1E {
        0xBF
    } else if i == 0xFF20 {
        0xFF
    } else if i == 0xFF23 {
        0xBF
    } else if i == 0xFF24 {
        0x77
    } else if i == 0xFF25 {
        0xF3
    } else if i == 0xFF26 {
        0xF1
    } else if i == 0xFF40 {
        0x91
    } else if i == 0xFF47 {
        0xFC
    } else if i == 0xFF48 {
        0xFF
    } else if i == 0xFF49 {
        0xFF
    } else {
        0
    }
}

/// The 64 KiB byte-addressable memory.
pub struct MemoryBus {
    mem: Vec<u8>,
}

impl View for MemoryBus {
    type V = Seq<u8>;

    closed spec fn view(&self) -> Seq<u8> {
        self.mem@
    }
}

impl MemoryBus {
    #[verifier::type_invariant]
    spec fn wf(self) -> bool {
        self.mem@.len() == BUS_SIZE
    }

    /// The bus always spans the whole 16-bit address range.
    pub fn len(&self) -> (n: usize)
        ensures
            n == self@.len(),
            n == BUS_SIZE,
    {
        proof {
            use_type_invariant(self);
        }
        self.mem.len()
    }

    /// A bus of all-zero bytes.
    pub fn new() -> (bus: MemoryBus)
        ensures
            bus@.len() == BUS_SIZE,
            forall|i: int| 0 <= i < BUS_SIZE ==> bus@[i] == 0u8,
    {
        let mut mem: Vec<u8> = Vec::new();
        let mut k: usize = 0;
        while k < BUS_SIZE
            invariant
                k == mem@.len(),
                k <= BUS_SIZE,
                forall|i: int| 0 <= i < k ==> mem@[i] == 0u8,
            decreases BUS_SIZE - k,
        {
            mem.push(0);
            k += 1;
        }
        MemoryBus { mem }
    }

    /// The bus as the power-on routine leaves it: the program image
    /// copied verbatim into the low region, the documented hardware
    /// register defaults everywhere the image does not reach, zero
    /// elsewhere.
    pub fn power_on(rom: &Vec<u8>) -> (bus: MemoryBus)
        requires
            rom@.len() <= BUS_SIZE,
        ensures
            bus@.len() == BUS_SIZE,
            forall|i: int| 0 <= i < rom@.len() ==> bus@[i] == rom@[i],
            forall|i: int| rom@.len() <= i < BUS_SIZE ==> bus@[i] == seed_byte(i),
    {
        let mut bus = MemoryBus::new();
        bus.write(0xFF10, 0x80);
        bus.write(0xFF11, 0xBF);
        bus.write(0xFF12, 0xF3);
        bus.write(0xFF14, 0xBF);
        bus.write(0xFF16, 0xF3);
        bus.write(0xFF19, 0xBF);
        bus.write(0xFF1A, 0x7F);
        bus.write(0xFF1B, 0xFF);
        bus.write(0xFF1C, 0x9F);
        bus.write(0xFF1E, 0xBF);
        bus.write(0xFF20, 0xFF);
        bus.write(0xFF23, 0xBF);
        bus.write(0xFF24, 0x77);
        bus.write(0xFF25, 0xF3);
        bus.write(0xFF26, 0xF1);
        bus.write(0xFF40, 0x91);
        bus.write(0xFF47, 0xFC);
        bus.write(0xFF48, 0xFF);
        bus.write(0xFF49, 0xFF);
        assert(forall|i: int| 0 <= i < BUS_SIZE ==> bus@[i] == seed_byte(i));
        let mut k: usize = 0;
        while k < rom.len()
            invariant
                rom@.len() <= BUS_SIZE,
                k <= rom@.len(),
                bus@.len() == BUS_SIZE,
                forall|i: int| 0 <= i < k ==> bus@[i] == rom@[i],
                forall|i: int| k <= i < BUS_SIZE ==> bus@[i] == seed_byte(i),
            decreases rom@.len() - k,
        {
            bus.write(k as u16, rom[k]);
            k += 1;
        }
        bus
    }

    /// Copies out a window of the bus, as the renderer does for the
    /// tile data and the tile map.
    pub fn read_range(&self, start: u16, n: usize) -> (r: Vec<u8>)
        requires
            start + n <= BUS_SIZE,
        ensures
            r@ == self@.subrange(start as int, start as int + n),
    {
        proof {
            use_type_invariant(self);
        }
        let mut r: Vec<u8> = Vec::new();
        let mut k: usize = 0;
        while k < n
            invariant
                start + n <= BUS_SIZE,
                self@.len() == BUS_SIZE,
                k <= n,
                r@.len() == k,
                forall|i: int| 0 <= i < k ==> r@[i] == self@[start + i],
            decreases n - k,
        {
            r.push(self.mem[start as usize + k]);
            k += 1;
        }
        proof {
            assert(r@ =~= self@.subrange(start as int, start as int + n));
        }
        r
    }

    /// Reads the byte at the given address; total over the whole
    /// address range.
    pub fn read(&self, addr: u16) -> (b: u8)
        ensures
            b == self@[addr as int],
            self@.len() == BUS_SIZE,
    {
        proof {
            use_type_invariant(self);
        }
        self.mem[addr as usize]
    }

    /// Writes one byte at the given address; total over the whole
    /// address range, and no other byte moves.
    pub fn write(&mut self, addr: u16, value: u8)
        ensures
            old(self)@.len() == BUS_SIZE,
            final(self)@ == old(self)@.update(addr as int, value),
    {
        proof {
            use_type_invariant(&*self);
        }
        self.mem[addr as usize] = value;
    }
}

} // verus!
