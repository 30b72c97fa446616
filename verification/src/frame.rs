//! The exception stack frame: what exception entry saves on the stack and
//! what exception return restores from it.
//!
//! The frame is 25 words long. From the lowest address up it holds R0, R1,
//! R2, R3, R12, the link register, the program counter, the program status
//! register, the floating-point registers S0 to S15 and the floating-point
//! status register: the order of the register slots. Entry pushes them
//! from the last to the first, so that R0 ends up at the new stack pointer.

use crate::system::{le_byte, Machine, Reg, NUM_REGS};
use vstd::prelude::*;

verus! {

/// Number of words in an exception frame.
pub const FRAME_WORDS: usize = 25;

/// Number of bytes in an exception frame.
pub const FRAME_BYTES: u32 = 100;

/// The link-register value that stands for "return from exception".
pub const EXC_RETURN: u32 = 0xFFFF_FFFD;

/// Bit position of interrupt number 0 in the pending mask, and index of its
/// entry in the vector table.
pub const IRQ_OFFSET: i32 = 16;

/// A memory access of the controller that touched unmapped memory. After
/// one, the emulated machine cannot go on.
#[derive(Clone, Copy, Debug, PartialEq, Eq, Structural)]
pub enum Fault {
    /// The vector-table entry of the interrupt could not be read.
    VectorFetch,
    /// The exception frame does not fit in mapped memory below the stack
    /// pointer.
    StackPush,
    /// No whole exception frame lies in mapped memory at the stack pointer.
    StackPop,
}

/// The word that identifies interrupt `irq` in the interrupt-status
/// register: the number itself, in two's complement where it is negative.
pub open spec fn irq_word(irq: int) -> u32 {
    if irq >= 0 {
        irq as u32
    } else {
        (irq + 0x1_0000_0000) as u32
    }
}

impl Machine {
    /// The byte that a frame starting at `base` holds at address `a`: frame
    /// word `i` is register slot `i`, in little-endian order.
    pub open spec fn frame_byte(self, base: int, a: int) -> u8 {
        le_byte(self.regs[(a - base) / 4], (a - base) % 4)
    }

    /// Whether a frame fits below the stack pointer, in mapped memory.
    pub open spec fn can_push(self) -> bool {
        &&& self.reg(Reg::SP) >= FRAME_BYTES
        &&& self.mapped(self.reg(Reg::SP) - FRAME_BYTES, FRAME_BYTES as int)
    }

    /// The state after the context registers are pushed: the frame lies
    /// directly below the old stack pointer, the stack pointer is at its
    /// first word, and nothing else has changed.
    pub open spec fn push_frame(self) -> Machine {
        let base = self.reg(Reg::SP) - FRAME_BYTES;
        Machine {
            regs: self.regs.update(Reg::SP.slot(), base as u32),
            mem: Map::new(
                |a: u32| self.mem.dom().contains(a),
                |a: u32|
                    if base <= a < base + FRAME_BYTES {
                        self.frame_byte(base, a as int)
                    } else {
                        self.mem[a]
                    },
            ),
        }
    }

    /// Whether a whole frame lies at the stack pointer, in mapped memory,
    /// with room for the stack pointer to move past it.
    pub open spec fn can_pop(self) -> bool {
        &&& self.reg(Reg::SP) + FRAME_BYTES <= u32::MAX
        &&& self.mapped(self.reg(Reg::SP) as int, FRAME_BYTES as int)
    }

    /// The state after the context registers are popped: each takes the
    /// frame word of its slot, the stack pointer moves past the frame, and
    /// memory is as it was.
    pub open spec fn pop_frame(self) -> Machine {
        let base = self.reg(Reg::SP) as int;
        Machine {
            regs: Seq::new(
                NUM_REGS as nat,
                |i: int|
                    if i < FRAME_WORDS {
                        self.word_at(base + 4 * i)
                    } else if i == Reg::SP.slot() {
                        (base + FRAME_BYTES) as u32
                    } else {
                        self.regs[i]
                    },
            ),
            mem: self.mem,
        }
    }

    /// Address of the vector-table entry of `irq` in a table at `table`.
    pub open spec fn vector_slot(table: u32, irq: int) -> int {
        table + 4 * (irq + IRQ_OFFSET)
    }

    /// The handler address that the vector table at `table` holds for `irq`.
    pub open spec fn handler(self, table: u32, irq: int) -> u32 {
        self.word_at(Self::vector_slot(table, irq))
    }

    /// The fault that stops exception entry for `irq`, if there is one: the
    /// vector is read first, then the frame is pushed.
    pub open spec fn entry_fault(self, table: u32, irq: int) -> Option<Fault> {
        if !self.mapped(Self::vector_slot(table, irq), 4) {
            Some(Fault::VectorFetch)
        } else if !self.can_push() {
            Some(Fault::StackPush)
        } else {
            None
        }
    }

    /// The state after exception entry for `irq` with handler `handler`.
    pub open spec fn enter(self, handler: u32, irq: int) -> Machine {
        self.push_frame().set_reg(Reg::IPSR, irq_word(irq)).set_reg(Reg::PC, handler).set_reg(
            Reg::LR,
            EXC_RETURN,
        )
    }
}

} // verus!
