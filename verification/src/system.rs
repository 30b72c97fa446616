//! The processor state an interrupt controller works against: a register
//! file and a sparse, byte-addressable memory.

use std::collections::HashMap;
use vstd::prelude::*;

verus! {

broadcast use vstd::std_specs::hash::group_hash_axioms;

/// Number of registers in the register file.
pub const NUM_REGS: usize = 28;

/// The registers of the core that exception handling touches.
///
/// The first 25 are the exception context, listed from the one that ends up
/// at the lowest stack address to the one at the highest.
#[derive(Clone, Copy, Debug)]
pub enum Reg {
    R0,
    R1,
    R2,
    R3,
    R12,
    LR,
    PC,
    XPSR,
    S0,
    S1,
    S2,
    S3,
    S4,
    S5,
    S6,
    S7,
    S8,
    S9,
    S10,
    S11,
    S12,
    S13,
    S14,
    S15,
    FPSCR,
    SP,
    IPSR,
    PRIMASK,
}

impl Reg {
    /// Position of the register in the register file.
    pub open spec fn slot(self) -> int {
        match self {
            Reg::R0 => 0,
            Reg::R1 => 1,
            Reg::R2 => 2,
            Reg::R3 => 3,
            Reg::R12 => 4,
            Reg::LR => 5,
            Reg::PC => 6,
            Reg::XPSR => 7,
            Reg::S0 => 8,
            Reg::S1 => 9,
            Reg::S2 => 10,
            Reg::S3 => 11,
            Reg::S4 => 12,
            Reg::S5 => 13,
            Reg::S6 => 14,
            Reg::S7 => 15,
            Reg::S8 => 16,
            Reg::S9 => 17,
            Reg::S10 => 18,
            Reg::S11 => 19,
            Reg::S12 => 20,
            Reg::S13 => 21,
            Reg::S14 => 22,
            Reg::S15 => 23,
            Reg::FPSCR => 24,
            Reg::SP => 25,
            Reg::IPSR => 26,
            Reg::PRIMASK => 27,
        }
    }

    /// Position of the register in the register file.
    pub fn index(self) -> (i: usize)
        ensures
            i == self.slot(),
            i < NUM_REGS,
    {
        match self {
            Reg::R0 => 0,
            Reg::R1 => 1,
            Reg::R2 => 2,
            Reg::R3 => 3,
            Reg::R12 => 4,
            Reg::LR => 5,
            Reg::PC => 6,
            Reg::XPSR => 7,
            Reg::S0 => 8,
            Reg::S1 => 9,
            Reg::S2 => 10,
            Reg::S3 => 11,
            Reg::S4 => 12,
            Reg::S5 => 13,
            Reg::S6 => 14,
            Reg::S7 => 15,
            Reg::S8 => 16,
            Reg::S9 => 17,
            Reg::S10 => 18,
            Reg::S11 => 19,
            Reg::S12 => 20,
            Reg::S13 => 21,
            Reg::S14 => 22,
            Reg::S15 => 23,
            Reg::FPSCR => 24,
            Reg::SP => 25,
            Reg::IPSR => 26,
            Reg::PRIMASK => 27,
        }
    }
}

/// Byte `k` (0 to 3) of a word, byte 0 being the least significant.
pub open spec fn le_byte(w: u32, k: int) -> u8 {
    if k == 0 {
        (w & 0xff) as u8
    } else if k == 1 {
        ((w >> 8) & 0xff) as u8
    } else if k == 2 {
        ((w >> 16) & 0xff) as u8
    } else {
        ((w >> 24) & 0xff) as u8
    }
}

/// The word whose little-endian bytes are `b0`, `b1`, `b2`, `b3`.
pub open spec fn le_word(b0: u8, b1: u8, b2: u8, b3: u8) -> u32 {
    (b0 as u32) | ((b1 as u32) << 8) | ((b2 as u32) << 16) | ((b3 as u32) << 24)
}

/// Splitting a word into its bytes and joining them again gives the word.
pub proof fn lemma_le_round_trip(w: u32)
    ensures
        le_word(le_byte(w, 0), le_byte(w, 1), le_byte(w, 2), le_byte(w, 3)) == w,
{
    assert(((w & 0xff) as u8 as u32) | ((((w >> 8) & 0xff) as u8 as u32) << 8) | ((((w >> 16)
        & 0xff) as u8 as u32) << 16) | ((((w >> 24) & 0xff) as u8 as u32) << 24) == w)
        by (bit_vector);
}

/// The mathematical model of the processor state.
#[verifier::ext_equal]
pub struct Machine {
    /// Register values, by slot.
    pub regs: Seq<u32>,
    /// The mapped bytes, by address. An address outside the domain is
    /// unmapped.
    pub mem: Map<u32, u8>,
}

impl Machine {
    /// The register file has a value for every register.
    pub open spec fn wf(self) -> bool {
        self.regs.len() == NUM_REGS
    }

    /// The value of register `r`.
    pub open spec fn reg(self, r: Reg) -> u32 {
        self.regs[r.slot()]
    }

    /// The state after `value` is written to register `r`.
    pub open spec fn set_reg(self, r: Reg, value: u32) -> Machine {
        Machine { regs: self.regs.update(r.slot(), value), mem: self.mem }
    }

    /// All of the `len` bytes from `addr` on lie in the 32-bit address space
    /// and are mapped.
    pub open spec fn mapped(self, addr: int, len: int) -> bool {
        &&& 0 <= addr
        &&& addr + len <= 0x1_0000_0000
        &&& forall|a: u32| addr <= a < addr + len ==> self.mem.dom().contains(a)
    }

    /// The little-endian word stored at `addr`.
    pub open spec fn word_at(self, addr: int) -> u32 {
        le_word(
            self.mem[addr as u32],
            self.mem[(addr + 1) as u32],
            self.mem[(addr + 2) as u32],
            self.mem[(addr + 3) as u32],
        )
    }

    /// The state after storing `w` at `addr` in little-endian order.
    pub open spec fn store_word(self, addr: int, w: u32) -> Machine {
        Machine {
            regs: self.regs,
            mem: self.mem.insert(addr as u32, le_byte(w, 0)).insert(
                (addr + 1) as u32,
                le_byte(w, 1),
            ).insert((addr + 2) as u32, le_byte(w, 2)).insert((addr + 3) as u32, le_byte(w, 3)),
        }
    }
}

/// Registers and memory of the emulated core, held as plain values.
///
/// Whoever runs the firmware owns the real state. Before an operation of
/// the interrupt controller it copies in here what the operation may look
/// at; afterwards it carries over what the operation has changed. A byte
/// that it could not read stays unmapped, and an operation that needs it
/// reports a fault.
pub struct System {
    /// Register values, by slot.
    pub regs: [u32; NUM_REGS],
    /// The mapped bytes, by address.
    pub mem: HashMap<u32, u8>,
}

impl View for System {
    type V = Machine;

    open spec fn view(&self) -> Machine {
        Machine { regs: self.regs@, mem: self.mem@ }
    }
}

impl System {
    /// A core with every register zero and no memory mapped.
    pub fn new() -> (sys: System)
        ensures
            sys@.wf(),
            forall|i: int| 0 <= i < NUM_REGS ==> sys@.regs[i] == 0,
            sys@.mem == Map::<u32, u8>::empty(),
    {
        System { regs: [0u32; NUM_REGS], mem: HashMap::new() }
    }

    /// Every register file has a value for every register.
    pub proof fn lemma_view_wf(&self)
        ensures
            self@.wf(),
    {
    }

    /// The value of register `reg`.
    pub fn reg_read(&self, reg: Reg) -> (value: u32)
        ensures
            value == self@.reg(reg),
    {
        self.regs[reg.index()]
    }

    /// Sets register `reg` to `value`.
    pub fn reg_write(&mut self, reg: Reg, value: u32)
        ensures
            final(self)@ == old(self)@.set_reg(reg, value),
    {
        self.regs[reg.index()] = value;
    }

    /// Maps the byte at `address`, or overwrites it, with `value`.
    pub fn poke(&mut self, address: u32, value: u8)
        ensures
            final(self)@.regs == old(self)@.regs,
            final(self)@.mem == old(self)@.mem.insert(address, value),
    {
        self.mem.insert(address, value);
    }

    /// Whether all of the `len` bytes from `address` on are mapped.
    pub fn is_mapped(&self, address: u32, len: u32) -> (r: bool)
        ensures
            r == self@.mapped(address as int, len as int),
    {
        if address as u64 + len as u64 > 0x1_0000_0000 {
            return false;
        }
        let mut i: u32 = 0;
        while i < len
            invariant
                i <= len,
                address + len <= 0x1_0000_0000,
                forall|a: u32| address <= a < address + i ==> self@.mem.dom().contains(a),
            decreases len - i,
        {
            if !self.mem.contains_key(&(address + i)) {
                assert(!self@.mem.dom().contains((address + i) as u32));
                return false;
            }
            i += 1;
        }
        true
    }

    /// Stores `value` at `address` in little-endian order.
    pub fn put_word(&mut self, address: u32, value: u32)
        requires
            old(self)@.mapped(address as int, 4),
        ensures
            final(self)@ == old(self)@.store_word(address as int, value),
    {
        let b0: u8 = (value & 0xff) as u8;
        let b1: u8 = ((value >> 8) & 0xff) as u8;
        let b2: u8 = ((value >> 16) & 0xff) as u8;
        let b3: u8 = ((value >> 24) & 0xff) as u8;
        self.mem.insert(address, b0);
        self.mem.insert(address + 1, b1);
        self.mem.insert(address + 2, b2);
        self.mem.insert(address + 3, b3);
    }

    /// The little-endian word at `address`.
    pub fn get_word(&self, address: u32) -> (value: u32)
        requires
            self@.mapped(address as int, 4),
        ensures
            value == self@.word_at(address as int),
    {
        assert(self@.mem.dom().contains(address));
        assert(self@.mem.dom().contains((address + 1) as u32));
        assert(self@.mem.dom().contains((address + 2) as u32));
        assert(self@.mem.dom().contains((address + 3) as u32));
        let b0: u8 = *self.mem.get(&address).unwrap();
        let b1: u8 = *self.mem.get(&(address + 1)).unwrap();
        let b2: u8 = *self.mem.get(&(address + 2)).unwrap();
        let b3: u8 = *self.mem.get(&(address + 3)).unwrap();
        (b0 as u32) | ((b1 as u32) << 8) | ((b2 as u32) << 16) | ((b3 as u32) << 24)
    }

    /// The word at `address`, if its four bytes are mapped.
    pub fn read_word(&self, address: u32) -> (r: Option<u32>)
        ensures
            r == if self@.mapped(address as int, 4) {
                Some(self@.word_at(address as int))
            } else {
                None
            },
    {
        if self.is_mapped(address, 4) {
            Some(self.get_word(address))
        } else {
            None
        }
    }

    /// Stores `value` at `address` if its four bytes are mapped, and says
    /// whether it did. Nothing changes otherwise.
    pub fn write_word(&mut self, address: u32, value: u32) -> (done: bool)
        ensures
            done == old(self)@.mapped(address as int, 4),
            done ==> final(self)@ == old(self)@.store_word(address as int, value),
            !done ==> final(self)@ == old(self)@,
    {
        if self.is_mapped(address, 4) {
            self.put_word(address, value);
            true
        } else {
            false
        }
    }

    /// The byte at `address`, if it is mapped.
    pub fn peek(&self, address: u32) -> (r: Option<u8>)
        ensures
            r == if self@.mem.dom().contains(address) {
                Some(self@.mem[address])
            } else {
                None
            },
    {
        match self.mem.get(&address) {
            Some(b) => Some(*b),
            None => None,
        }
    }
}

} // verus!
