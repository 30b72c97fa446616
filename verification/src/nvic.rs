//! The interrupt controller: which interrupts are pending, when one is
//! delivered, and how the core enters and leaves its handler.

use crate::bits::{bit_set, lemma_clear_bit, lemma_set_bit, lemma_zero_mask, lowest_set_bit};
use crate::frame::{Fault, EXC_RETURN, FRAME_BYTES, FRAME_WORDS, IRQ_OFFSET};
use crate::nvic::irq::SYSTICK;
use crate::peripheral::{is_named, Peripheral, Unimplemented};
use crate::system::{Machine, Reg, System, NUM_REGS};
use vstd::prelude::*;

pub mod irq;

verus! {

/// Number of distinct interrupt numbers the controller tracks.
pub const NUM_IRQS: i32 = 128;

/// Whether the controller has a pending bit for interrupt number `irq`.
pub open spec fn supported(irq: int) -> bool {
    0 <= irq + IRQ_OFFSET < NUM_IRQS
}

/// The mathematical model of the controller.
#[verifier::ext_equal]
pub struct NvicState {
    /// The interrupt numbers asserted and not yet delivered.
    pub pending: Set<int>,
    /// Whether an exception is being serviced.
    pub active: bool,
    /// Instructions between two SysTick assertions, if SysTick is on.
    pub systick_period: Option<u32>,
    /// The instruction count at the last SysTick assertion.
    pub last_systick_trigger: u64,
}

impl NvicState {
    /// Every pending interrupt number is one the controller supports.
    pub open spec fn wf(self) -> bool {
        forall|irq: int| self.pending.contains(irq) ==> supported(irq)
    }

    pub open spec fn has_pending(self) -> bool {
        exists|irq: int| self.pending.contains(irq)
    }

    /// The state after interrupt `irq` is asserted.
    pub open spec fn raise(self, irq: int) -> NvicState {
        NvicState { pending: self.pending.insert(irq), ..self }
    }

    /// The state after interrupt `irq` is taken out of the pending set.
    pub open spec fn take(self, irq: int) -> NvicState {
        NvicState { pending: self.pending.remove(irq), ..self }
    }

    /// `irq` is pending and no pending interrupt has a lower number.
    pub open spec fn is_lowest(self, irq: int) -> bool {
        &&& self.pending.contains(irq)
        &&& forall|other: int| self.pending.contains(other) ==> irq <= other
    }

    /// The lowest pending interrupt number, where one is pending.
    pub open spec fn lowest(self) -> int {
        choose|irq: int| self.is_lowest(irq)
    }

    /// Whether more than a period of instructions has elapsed at count
    /// `now` since the last SysTick assertion.
    pub open spec fn systick_due(self, now: u64) -> bool {
        match self.systick_period {
            Some(period) => now - self.last_systick_trigger > period,
            None => false,
        }
    }

    /// The state after the SysTick timer has looked at the count `now`.
    pub open spec fn tick(self, now: u64) -> NvicState {
        if self.systick_due(now) {
            NvicState {
                pending: self.pending.insert(SYSTICK as int),
                last_systick_trigger: now,
                ..self
            }
        } else {
            self
        }
    }
}

/// Controller, core and result after one scheduling check.
pub struct Step {
    pub nvic: NvicState,
    pub machine: Machine,
    /// The interrupt whose handler the core has entered, if any, or the
    /// fault that stopped the entry.
    pub outcome: Result<Option<i32>, Fault>,
}

impl NvicState {
    /// Controller and core after exception entry for `irq` was tried: on a
    /// fault neither has changed; else the core has entered the handler and
    /// the controller is servicing. Both faults are found before anything
    /// is written, so no part of a frame is ever left behind.
    pub open spec fn deliver(self, machine: Machine, table: u32, irq: int) -> Step {
        match machine.entry_fault(table, irq) {
            Some(fault) => Step { nvic: self, machine: machine, outcome: Err(fault) },
            None => Step {
                nvic: NvicState { active: true, ..self },
                machine: machine.enter(machine.handler(table, irq), irq),
                outcome: Ok(Some(irq as i32)),
            },
        }
    }

    /// One scheduling check at instruction count `now`, with the vector
    /// table at `table`: the SysTick timer looks at the count; then, unless
    /// interrupts are masked, an exception is being serviced or nothing is
    /// pending, the lowest pending interrupt is taken and delivered. An
    /// interrupt whose delivery meets a fault has been taken all the same.
    pub open spec fn check(self, machine: Machine, table: u32, now: u64) -> Step {
        let ticked = self.tick(now);
        if machine.reg(Reg::PRIMASK) != 0 || ticked.active || !ticked.has_pending() {
            Step { nvic: ticked, machine: machine, outcome: Ok(None) }
        } else {
            ticked.take(ticked.lowest()).deliver(machine, table, ticked.lowest())
        }
    }

    /// Controller and core after the handler has returned, if the frame
    /// could be popped; both unchanged if not.
    pub open spec fn leave(self, machine: Machine) -> (NvicState, Machine) {
        if machine.can_pop() {
            (NvicState { active: false, ..self }, machine.pop_frame())
        } else {
            (self, machine)
        }
    }

    /// No two interrupt numbers are both the lowest pending one.
    pub proof fn lemma_lowest_unique(self, irq: int)
        requires
            self.is_lowest(irq),
        ensures
            self.lowest() == irq,
    {
        let other = self.lowest();
        assert(self.is_lowest(other));
    }
}

/// The interrupt controller of one emulated core.
pub struct Nvic {
    pub systick_period: Option<u32>,
    pub last_systick_trigger: u64,
    pending: u128,
    in_interrupt: bool,
}

impl View for Nvic {
    type V = NvicState;

    closed spec fn view(&self) -> NvicState {
        NvicState {
            pending: Set::new(
                |irq: int| supported(irq) && bit_set(self.pending, (irq + IRQ_OFFSET) as u128),
            ),
            active: self.in_interrupt,
            systick_period: self.systick_period,
            last_systick_trigger: self.last_systick_trigger,
        }
    }
}

impl Nvic {
    /// Only supported interrupt numbers are ever pending.
    pub proof fn lemma_view_wf(&self)
        ensures
            self@.wf(),
    {
    }

    /// A controller with nothing pending, no exception being serviced and
    /// SysTick off.
    pub fn new() -> (nvic: Nvic)
        ensures
            nvic@.pending == Set::<int>::empty(),
            !nvic@.active,
            nvic@.systick_period == None::<u32>,
            nvic@.last_systick_trigger == 0,
    {
        proof {
            lemma_zero_mask();
        }
        Nvic { systick_period: None, last_systick_trigger: 0, pending: 0, in_interrupt: false }
    }

    /// Sets the number of instructions between two SysTick assertions;
    /// `None` turns SysTick off.
    pub fn set_systick_period(&mut self, period: Option<u32>)
        ensures
            final(self)@ == (NvicState { systick_period: period, ..old(self)@ }),
    {
        self.systick_period = period;
    }

    /// Whether `irq` is an interrupt number that can be asserted.
    pub fn is_supported(irq: i32) -> (r: bool)
        ensures
            r == supported(irq as int),
    {
        -IRQ_OFFSET <= irq && irq < NUM_IRQS - IRQ_OFFSET
    }

    /// Marks `irq` pending. Asserting an interrupt that is pending already
    /// changes nothing.
    pub fn set_intr_pending(&mut self, irq: i32)
        requires
            supported(irq as int),
        ensures
            final(self)@ == old(self)@.raise(irq as int),
    {
        let bit: u32 = (IRQ_OFFSET + irq) as u32;
        proof {
            lemma_set_bit(self.pending, bit as u128);
        }
        self.pending = self.pending | (1u128 << bit);
        assert(self@.pending =~= old(self)@.pending.insert(irq as int));
    }

    /// Takes the lowest-numbered pending interrupt out of the pending set
    /// and returns it, or returns `None` when nothing is pending.
    ///
    /// Real hardware arbitrates by a priority that firmware sets for each
    /// interrupt. This controller knows no priorities: the lowest number
    /// wins.
    pub fn get_and_clear_next_intr_pending(&mut self) -> (next: Option<i32>)
        ensures
            match next {
                Some(irq) => old(self)@.is_lowest(irq as int) && final(self)@ == old(self)@.take(
                    irq as int,
                ),
                None => !old(self)@.has_pending() && final(self)@ == old(self)@,
            },
    {
        if self.pending != 0 {
            let bit: u32 = lowest_set_bit(self.pending);
            proof {
                lemma_clear_bit(self.pending, bit as u128);
            }
            self.pending = self.pending & !(1u128 << bit);
            let irq: i32 = (bit as i32) - IRQ_OFFSET;
            assert(self@.pending =~= old(self)@.pending.remove(irq as int));
            Some(irq)
        } else {
            proof {
                lemma_zero_mask();
            }
            None
        }
    }

    /// Asserts SysTick if a period is set and more than that many
    /// instructions have run, at count `now`, since SysTick was last
    /// asserted; the count of that assertion is then `now`.
    pub fn maybe_set_systick_intr_pending(&mut self, now: u64)
        ensures
            final(self)@ == old(self)@.tick(now),
    {
        if let Some(systick_period) = self.systick_period {
            if now >= self.last_systick_trigger {
                let delta_num_instructions: u64 = now - self.last_systick_trigger;
                if (systick_period as u64) < delta_num_instructions {
                    self.last_systick_trigger = now;
                    self.set_intr_pending(SYSTICK);
                }
            }
        }
    }

    /// Whether the core has interrupts masked.
    pub fn are_interrupts_disabled(sys: &System) -> (disabled: bool)
        ensures
            disabled == (sys@.reg(Reg::PRIMASK) != 0),
    {
        let primask: u32 = sys.reg_read(Reg::PRIMASK);
        primask != 0
    }

    /// Reads the handler address of `irq` from the vector table at
    /// `vector_table_addr`.
    pub fn read_vector_addr(sys: &System, vector_table_addr: u32, irq: i32) -> (r: Result<
        u32,
        Fault,
    >)
        requires
            supported(irq as int),
        ensures
            r == if sys@.mapped(Machine::vector_slot(vector_table_addr, irq as int), 4) {
                Ok::<u32, Fault>(sys@.word_at(Machine::vector_slot(vector_table_addr, irq as int)))
            } else {
                Err::<u32, Fault>(Fault::VectorFetch)
            },
    {
        // Entries are four bytes wide.
        let offset: u32 = 4 * ((IRQ_OFFSET + irq) as u32);
        if vector_table_addr > u32::MAX - offset {
            return Err(Fault::VectorFetch);
        }
        let vaddr: u32 = vector_table_addr + offset;
        match sys.read_word(vaddr) {
            Some(vector) => Ok(vector),
            None => Err(Fault::VectorFetch),
        }
    }

    /// Saves the context registers on the stack.
    pub fn push_regs(sys: &mut System) -> (r: Result<(), Fault>)
        ensures
            r == if old(sys)@.can_push() {
                Ok::<(), Fault>(())
            } else {
                Err::<(), Fault>(Fault::StackPush)
            },
            final(sys)@ == if old(sys)@.can_push() {
                old(sys)@.push_frame()
            } else {
                old(sys)@
            },
    {
        let top: u32 = sys.reg_read(Reg::SP);
        if top < FRAME_BYTES || !sys.is_mapped(top - FRAME_BYTES, FRAME_BYTES) {
            return Err(Fault::StackPush);
        }
        let ghost base: int = top - FRAME_BYTES;
        let mut sp: u32 = top;
        let mut pushed: usize = 0;
        while pushed < FRAME_WORDS
            invariant
                pushed <= FRAME_WORDS,
                top >= FRAME_BYTES,
                base == top - FRAME_BYTES,
                sp == top - 4 * pushed,
                sys@.regs == old(sys)@.regs,
                sys@.mem.dom() == old(sys)@.mem.dom(),
                old(sys)@.mapped(base, FRAME_BYTES as int),
                forall|a: u32|
                    sys@.mem.dom().contains(a) ==> #[trigger] sys@.mem[a] == if sp <= a < top {
                        old(sys)@.frame_byte(base, a as int)
                    } else {
                        old(sys)@.mem[a]
                    },
            decreases FRAME_WORDS - pushed,
        {
            let slot: usize = FRAME_WORDS - 1 - pushed;
            let v: u32 = sys.regs[slot];
            sp = sp - 4;
            assert(sys@.mapped(sp as int, 4)) by {
                assert forall|a: u32| sp <= a < sp + 4 implies sys@.mem.dom().contains(a) by {
                    assert(base <= a < base + FRAME_BYTES);
                }
            }
            sys.put_word(sp, v);
            pushed = pushed + 1;
            proof {
                assert(sys@.mem.dom() =~= old(sys)@.mem.dom());
                assert forall|a: u32| sys@.mem.dom().contains(a) implies #[trigger] sys@.mem[a]
                    == if sp <= a < top {
                    old(sys)@.frame_byte(base, a as int)
                } else {
                    old(sys)@.mem[a]
                } by {
                    if sp <= a < sp + 4 {
                        assert((a - base) / 4 == slot as int);
                        assert((a - base) % 4 == a - sp);
                    }
                }
            }
        }
        sys.reg_write(Reg::SP, sp);
        assert(sys@ =~= old(sys)@.push_frame());
        Ok(())
    }

    /// Restores the context registers from the stack.
    pub fn pop_regs(sys: &mut System) -> (r: Result<(), Fault>)
        ensures
            r == if old(sys)@.can_pop() {
                Ok::<(), Fault>(())
            } else {
                Err::<(), Fault>(Fault::StackPop)
            },
            final(sys)@ == if old(sys)@.can_pop() {
                old(sys)@.pop_frame()
            } else {
                old(sys)@
            },
    {
        let base: u32 = sys.reg_read(Reg::SP);
        if base > u32::MAX - FRAME_BYTES || !sys.is_mapped(base, FRAME_BYTES) {
            return Err(Fault::StackPop);
        }
        let mut sp: u32 = base;
        let mut popped: usize = 0;
        while popped < FRAME_WORDS
            invariant
                popped <= FRAME_WORDS,
                base + FRAME_BYTES <= u32::MAX,
                sp == base + 4 * popped,
                sys@.mem == old(sys)@.mem,
                sys@.regs.len() == NUM_REGS,
                old(sys)@.mapped(base as int, FRAME_BYTES as int),
                forall|i: int|
                    0 <= i < NUM_REGS ==> #[trigger] sys@.regs[i] == if i < popped {
                        old(sys)@.word_at(base + 4 * i)
                    } else {
                        old(sys)@.regs[i]
                    },
            decreases FRAME_WORDS - popped,
        {
            assert(sys@.mapped(sp as int, 4)) by {
                assert forall|a: u32| sp <= a < sp + 4 implies sys@.mem.dom().contains(a) by {
                    assert(base <= a < base + FRAME_BYTES);
                }
            }
            let v: u32 = sys.get_word(sp);
            sp = sp + 4;
            sys.regs[popped] = v;
            popped = popped + 1;
        }
        sys.reg_write(Reg::SP, sp);
        assert(sys@ =~= old(sys)@.pop_frame());
        Ok(())
    }

    /// Enters the handler of `irq`: saves the context on the stack, names
    /// the interrupt in the interrupt-status register, and sets the program
    /// counter to the handler and the link register to the return sentinel.
    pub fn run_interrupt(&mut self, sys: &mut System, vector_table_addr: u32, irq: i32) -> (r: Result<
        (),
        Fault,
    >)
        requires
            supported(irq as int),
        ensures
            r == match old(sys)@.entry_fault(vector_table_addr, irq as int) {
                Some(fault) => Err::<(), Fault>(fault),
                None => Ok::<(), Fault>(()),
            },
            final(self)@ == old(self)@.deliver(old(sys)@, vector_table_addr, irq as int).nvic,
            final(sys)@ == old(self)@.deliver(old(sys)@, vector_table_addr, irq as int).machine,
    {
        let vector: u32 = match Self::read_vector_addr(sys, vector_table_addr, irq) {
            Ok(vector) => vector,
            Err(fault) => {
                return Err(fault);
            },
        };
        match Self::push_regs(sys) {
            Ok(()) => {},
            Err(fault) => {
                return Err(fault);
            },
        }
        let ipsr: u32 = if irq >= 0 {
            irq as u32
        } else {
            0xFFFF_FFFF - ((-(irq + 1)) as u32)
        };
        sys.reg_write(Reg::IPSR, ipsr);
        sys.reg_write(Reg::PC, vector);
        // This value means return from interrupt.
        sys.reg_write(Reg::LR, EXC_RETURN);

        self.in_interrupt = true;
        Ok(())
    }

    /// Leaves the handler: restores the context from the stack and ends
    /// the servicing.
    pub fn return_from_interrupt(&mut self, sys: &mut System) -> (r: Result<(), Fault>)
        ensures
            r == if old(sys)@.can_pop() {
                Ok::<(), Fault>(())
            } else {
                Err::<(), Fault>(Fault::StackPop)
            },
            (final(self)@, final(sys)@) == old(self)@.leave(old(sys)@),
    {
        match Self::pop_regs(sys) {
            Ok(()) => {},
            Err(fault) => {
                return Err(fault);
            },
        }
        self.in_interrupt = false;
        Ok(())
    }

    /// One scheduling check at instruction count `now`, the number of
    /// instructions the core has run so far. Returns the interrupt whose
    /// handler the core has entered, if any.
    ///
    /// A fault means that the vector table or the stack pointer of the
    /// firmware is corrupt: the caller is expected to stop the machine.
    pub fn run_pending_interrupts(
        &mut self,
        sys: &mut System,
        vector_table_addr: u32,
        now: u64,
    ) -> (r: Result<Option<i32>, Fault>)
        ensures
            r == old(self)@.check(old(sys)@, vector_table_addr, now).outcome,
            final(self)@ == old(self)@.check(old(sys)@, vector_table_addr, now).nvic,
            final(sys)@ == old(self)@.check(old(sys)@, vector_table_addr, now).machine,
    {
        self.maybe_set_systick_intr_pending(now);

        if Self::are_interrupts_disabled(sys) || self.in_interrupt {
            return Ok(None);
        }
        let ghost ticked = self@;
        if let Some(irq) = self.get_and_clear_next_intr_pending() {
            proof {
                ticked.lemma_lowest_unique(irq as int);
            }
            match self.run_interrupt(sys, vector_table_addr, irq) {
                Ok(()) => Ok(Some(irq)),
                Err(fault) => Err(fault),
            }
        } else {
            Ok(None)
        }
    }
}

/// The controller's own register bank (enable, pending, active and
/// priority registers) is not implemented: every register reads as zero and
/// writes are dropped. Interrupts are asserted by `set_intr_pending`.
impl Peripheral for Nvic {
    fn read(&mut self, _sys: &System, _offset: u32) -> (r: Result<u32, Unimplemented>)
        ensures
            r == Ok::<u32, Unimplemented>(0),
            final(self)@ == old(self)@,
    {
        Ok(0)
    }

    fn write(&mut self, _sys: &System, _offset: u32, _value: u32) -> (r: Result<
        (),
        Unimplemented,
    >)
        ensures
            r == Ok::<(), Unimplemented>(()),
            final(self)@ == old(self)@,
    {
        Ok(())
    }
}

impl Default for Nvic {
    fn default() -> (nvic: Nvic)
        ensures
            nvic@.pending == Set::<int>::empty(),
            !nvic@.active,
            nvic@.systick_period == None::<u32>,
            nvic@.last_systick_trigger == 0,
    {
        Nvic::new()
    }
}

/// The place of the controller's register bank on the bus. It holds no
/// state of its own and owns no controller: the machine does.
pub struct NvicWrapper {}

impl NvicWrapper {
    /// The register bank of the controller, if `name` is "NVIC".
    pub fn new(name: &str) -> (wrapper: Option<NvicWrapper>)
        ensures
            wrapper is Some <==> name@ == "NVIC"@,
    {
        if is_named(name, "NVIC") {
            Some(NvicWrapper {  })
        } else {
            None
        }
    }
}

impl Peripheral for NvicWrapper {
    fn read(&mut self, _sys: &System, _offset: u32) -> (r: Result<u32, Unimplemented>)
        ensures
            r == Ok::<u32, Unimplemented>(0),
    {
        Ok(0)
    }

    fn write(&mut self, _sys: &System, _offset: u32, _value: u32) -> (r: Result<
        (),
        Unimplemented,
    >)
        ensures
            r == Ok::<(), Unimplemented>(()),
    {
        Ok(())
    }
}

} // verus!
