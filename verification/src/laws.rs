//! What holds of the controller for every state and input.

use crate::frame::{irq_word, Fault, EXC_RETURN, FRAME_BYTES, FRAME_WORDS};
use crate::nvic::irq::SYSTICK;
use crate::nvic::{supported, NvicState};
use crate::system::{le_byte, lemma_le_round_trip, Machine, Reg, NUM_REGS};
use vstd::prelude::*;

verus! {

/// Where anything is pending, some pending interrupt has the lowest number.
pub proof fn lemma_lowest_exists(s: NvicState)
    requires
        s.wf(),
        s.has_pending(),
    ensures
        s.is_lowest(s.lowest()),
{
    assert forall|irq: int| s.pending.contains(irq) implies -16 <= irq by {
        assert(supported(irq));
    }
    lemma_lowest_from(s, -16);
}

proof fn lemma_lowest_from(s: NvicState, k: int)
    requires
        s.wf(),
        s.has_pending(),
        -16 <= k,
        forall|irq: int| s.pending.contains(irq) ==> k <= irq,
    ensures
        s.is_lowest(s.lowest()),
    decreases 112 - k,
{
    let some = choose|irq: int| s.pending.contains(irq);
    assert(supported(some));
    if s.pending.contains(k) {
        assert(s.is_lowest(k));
    } else {
        lemma_lowest_from(s, k + 1);
    }
}

/// Asserting an interrupt that is pending already changes nothing: the
/// pending set holds each interrupt number once.
pub proof fn lemma_raise_coalesces(s: NvicState, irq: int)
    ensures
        s.raise(irq).raise(irq) == s.raise(irq),
        !s.raise(irq).raise(irq).take(irq).pending.contains(irq),
{
    assert(s.raise(irq).raise(irq) =~= s.raise(irq));
}

/// An interrupt asserted twice while nothing else is pending is taken
/// once: it is the lowest pending one, and nothing is pending once it is
/// taken.
pub proof fn lemma_raised_twice_taken_once(s: NvicState, irq: int)
    requires
        !s.has_pending(),
    ensures
        s.raise(irq).raise(irq).is_lowest(irq),
        !s.raise(irq).raise(irq).take(irq).has_pending(),
{
    let twice = s.raise(irq).raise(irq);
    assert forall|other: int| twice.pending.contains(other) implies irq <= other by {
        if other != irq {
            assert(s.pending.contains(other));
        }
    }
    assert forall|other: int| !twice.take(irq).pending.contains(other) by {
        if twice.take(irq).pending.contains(other) {
            assert(s.pending.contains(other));
        }
    }
}

/// Pending interrupts are taken in rising order of their numbers.
pub proof fn lemma_taken_in_rising_order(s: NvicState, first: int, second: int)
    requires
        s.is_lowest(first),
        s.take(first).is_lowest(second),
    ensures
        first < second,
{
    assert(s.pending.contains(second));
}

/// While interrupts are masked, a scheduling check enters no handler and
/// leaves the core as it is, whatever is pending. Only the SysTick timer has
/// run.
pub proof fn lemma_masked_check_delivers_nothing(s: NvicState, m: Machine, table: u32, now: u64)
    requires
        m.reg(Reg::PRIMASK) != 0,
    ensures
        s.check(m, table, now).outcome == Ok::<Option<i32>, Fault>(None),
        s.check(m, table, now).machine == m,
        s.check(m, table, now).nvic == s.tick(now),
{
}

/// While interrupts are masked, a scheduling check leaves the pending set
/// as it is, unless it is the check at which SysTick falls due while not
/// pending yet: that one adds SysTick.
pub proof fn lemma_masked_check_keeps_pending(s: NvicState, m: Machine, table: u32, now: u64)
    requires
        m.reg(Reg::PRIMASK) != 0,
        s.systick_due(now) ==> s.pending.contains(SYSTICK as int),
    ensures
        s.check(m, table, now).nvic.pending == s.pending,
{
    assert(s.tick(now).pending =~= s.pending);
}

/// While an exception is being serviced, a scheduling check enters no
/// second handler: the core stays as it is and what is pending waits.
pub proof fn lemma_no_entry_while_servicing(s: NvicState, m: Machine, table: u32, now: u64)
    requires
        s.active,
    ensures
        s.check(m, table, now).outcome == Ok::<Option<i32>, Fault>(None),
        s.check(m, table, now).machine == m,
        s.check(m, table, now).nvic == s.tick(now),
        s.check(m, table, now).nvic.active,
{
}

/// Once the handler has returned, the next scheduling check with
/// interrupts enabled delivers the lowest pending interrupt, if the entry
/// meets no fault.
pub proof fn lemma_deliverable_after_return(
    s: NvicState,
    m: Machine,
    table: u32,
    now: u64,
)
    requires
        s.wf(),
        m.can_pop(),
        s.leave(m).0.tick(now).has_pending(),
        s.leave(m).1.reg(Reg::PRIMASK) == 0,
        s.leave(m).1.entry_fault(table, s.leave(m).0.tick(now).lowest()) is None,
    ensures
        !s.leave(m).0.active,
        s.leave(m).0.tick(now).is_lowest(s.leave(m).0.tick(now).lowest()),
        s.leave(m).0.check(s.leave(m).1, table, now).outcome == Ok::<
            Option<i32>,
            Fault,
        >(Some(s.leave(m).0.tick(now).lowest() as i32)),
        s.leave(m).0.check(s.leave(m).1, table, now).nvic.active,
{
    let ticked = s.leave(m).0.tick(now);
    assert(ticked.wf());
    lemma_lowest_exists(ticked);
}

/// SysTick is asserted by the timer exactly when more than a period of
/// instructions has run since its last assertion, and not before.
pub proof fn lemma_systick_fires_when_due(s: NvicState, now: u64)
    ensures
        s.tick(now).pending.contains(SYSTICK as int) <==> s.pending.contains(SYSTICK as int)
            || s.systick_due(now),
        s.systick_period is None ==> s.tick(now) == s,
        s.systick_period matches Some(period) ==> (s.systick_due(now) <==> now
            - s.last_systick_trigger > period),
        !s.systick_due(now) ==> s.tick(now) == s,
{
}

/// After an assertion at count `fired`, the next one takes more than a
/// full period counted from `fired`, wherever the count stood before.
pub proof fn lemma_systick_period_restarts(s: NvicState, fired: u64, now: u64)
    requires
        s.systick_due(fired),
    ensures
        s.tick(fired).last_systick_trigger == fired,
        s.systick_period matches Some(period) && (s.tick(fired).systick_due(now) <==> now - fired
            > period),
{
}

/// Between two assertions that are at most a period apart in count, the
/// timer asserts nothing: bursts of elapsed time give one assertion.
pub proof fn lemma_systick_quiet_within_period(s: NvicState, fired: u64, now: u64)
    requires
        s.systick_due(fired),
        s.systick_period matches Some(period) && now - fired <= period,
    ensures
        s.tick(fired).tick(now) == s.tick(fired),
{
}

/// The state after the SysTick timer has looked at each count of `counts`
/// in turn.
pub open spec fn tick_all(s: NvicState, counts: Seq<u64>) -> NvicState
    decreases counts.len(),
{
    if counts.len() == 0 {
        s
    } else {
        tick_all(s, counts.drop_last()).tick(counts.last())
    }
}

/// However often the timer looks, it asserts nothing before the count is
/// more than a period past the last assertion.
pub proof fn lemma_systick_not_before_due(s: NvicState, counts: Seq<u64>)
    requires
        forall|i: int| 0 <= i < counts.len() ==> !s.systick_due(#[trigger] counts[i]),
    ensures
        tick_all(s, counts) == s,
    decreases counts.len(),
{
    if counts.len() > 0 {
        let earlier = counts.drop_last();
        assert forall|i: int| 0 <= i < earlier.len() implies !s.systick_due(
            #[trigger] earlier[i],
        ) by {
            assert(earlier[i] == counts[i]);
        }
        lemma_systick_not_before_due(s, earlier);
        assert(!s.systick_due(counts[counts.len() - 1]));
    }
}

/// Exception entry lays the frame out as the hardware does: counted in
/// words from the new stack pointer up, word `i` holds the register of
/// slot `i` as it was before the entry, and the new stack pointer is 25
/// words below the old one. Memory outside the frame is as it was.
pub proof fn lemma_frame_layout(m: Machine, handler: u32, irq: int)
    requires
        m.wf(),
        m.can_push(),
    ensures
        m.enter(handler, irq).reg(Reg::SP) == m.reg(Reg::SP) - FRAME_BYTES,
        forall|i: int|
            0 <= i < FRAME_WORDS ==> #[trigger] m.enter(handler, irq).word_at(
                m.reg(Reg::SP) - FRAME_BYTES + 4 * i,
            ) == m.regs[i],
        m.enter(handler, irq).mem.dom() == m.mem.dom(),
        forall|a: u32|
            m.mem.dom().contains(a) && !(m.reg(Reg::SP) - FRAME_BYTES <= a < m.reg(Reg::SP))
                ==> m.enter(handler, irq).mem[a] == m.mem[a],
{
    let e = m.enter(handler, irq);
    let base = m.reg(Reg::SP) - FRAME_BYTES;
    assert(e.mem.dom() =~= m.mem.dom());
    assert forall|i: int| 0 <= i < FRAME_WORDS implies #[trigger] e.word_at(base + 4 * i)
        == m.regs[i] by {
        let a = base + 4 * i;
        assert(m.mem.dom().contains(a as u32));
        assert(m.mem.dom().contains((a + 1) as u32));
        assert(m.mem.dom().contains((a + 2) as u32));
        assert(m.mem.dom().contains((a + 3) as u32));
        assert(e.mem[a as u32] == le_byte(m.regs[i], 0));
        assert(e.mem[(a + 1) as u32] == le_byte(m.regs[i], 1));
        assert(e.mem[(a + 2) as u32] == le_byte(m.regs[i], 2));
        assert(e.mem[(a + 3) as u32] == le_byte(m.regs[i], 3));
        lemma_le_round_trip(m.regs[i]);
    }
}

/// Exception entry sets the interrupt-status register to the number of
/// the interrupt, the program counter to the handler and the link register
/// to the return sentinel, and keeps the interrupt mask.
pub proof fn lemma_entry_registers(m: Machine, handler: u32, irq: int)
    requires
        m.wf(),
    ensures
        m.enter(handler, irq).reg(Reg::IPSR) == irq_word(irq),
        m.enter(handler, irq).reg(Reg::PC) == handler,
        m.enter(handler, irq).reg(Reg::LR) == EXC_RETURN,
        m.enter(handler, irq).reg(Reg::PRIMASK) == m.reg(Reg::PRIMASK),
{
}

/// Exception entry followed by exception return restores the core: every
/// context register and the stack pointer are as they were before the
/// entry, and so is every other register but the interrupt-status
/// register, which names the interrupt.
pub proof fn lemma_frame_round_trip(m: Machine, handler: u32, irq: int)
    requires
        m.wf(),
        m.can_push(),
    ensures
        m.enter(handler, irq).can_pop(),
        m.enter(handler, irq).pop_frame().regs == m.regs.update(
            Reg::IPSR.slot(),
            irq_word(irq),
        ),
        forall|i: int|
            0 <= i < FRAME_WORDS ==> m.enter(handler, irq).pop_frame().regs[i] == m.regs[i],
        m.enter(handler, irq).pop_frame().reg(Reg::SP) == m.reg(Reg::SP),
{
    let e = m.enter(handler, irq);
    let base = m.reg(Reg::SP) - FRAME_BYTES;
    lemma_frame_layout(m, handler, irq);
    assert(e.can_pop());
    assert forall|i: int| 0 <= i < NUM_REGS implies e.pop_frame().regs[i] == m.regs.update(
        Reg::IPSR.slot(),
        irq_word(irq),
    )[i] by {
        if i < FRAME_WORDS {
            assert(e.word_at(base + 4 * i) == m.regs[i]);
        }
    }
    assert(e.pop_frame().regs =~= m.regs.update(Reg::IPSR.slot(), irq_word(irq)));
}

/// A delivered interrupt can be returned from: after a scheduling check
/// that entered a handler, the return finds its frame, ends the servicing,
/// and leaves the context registers and the stack pointer as they were
/// before the check.
pub proof fn lemma_check_then_return(s: NvicState, m: Machine, table: u32, now: u64)
    requires
        m.wf(),
        s.check(m, table, now).outcome matches Ok(Some(_)),
    ensures
        s.check(m, table, now).nvic.active,
        s.check(m, table, now).machine.can_pop(),
        !s.check(m, table, now).nvic.leave(s.check(m, table, now).machine).0.active,
        forall|i: int|
            0 <= i < FRAME_WORDS ==> s.check(m, table, now).nvic.leave(
                s.check(m, table, now).machine,
            ).1.regs[i] == m.regs[i],
        s.check(m, table, now).nvic.leave(s.check(m, table, now).machine).1.reg(Reg::SP) == m.reg(
            Reg::SP,
        ),
{
    let ticked = s.tick(now);
    let irq = ticked.lowest();
    lemma_frame_round_trip(m, m.handler(table, irq), irq);
}

} // verus!
