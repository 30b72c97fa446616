//! A general-purpose timer: a bank of 16-bit registers that keeps what is
//! written to it. The counter does not run.

use crate::peripheral::{has_prefix, Peripheral, Unimplemented};
use crate::system::System;
use vstd::prelude::*;

verus! {

/// Offset of control register 1.
pub const TIM_CR1: u32 = 0x0000;

/// Offset of the interrupt enable register.
pub const TIM_DIER: u32 = 0x000c;

/// Offset of the event generation register.
pub const TIM_EGR: u32 = 0x0014;

/// Offset of the counter.
pub const TIM_CNT: u32 = 0x0024;

/// Offset of the prescaler.
pub const TIM_PSC: u32 = 0x0028;

/// Offset of the auto-reload register.
pub const TIM_ARR: u32 = 0x002c;

/// Offset of the repetition counter register.
pub const TIM_RCR: u32 = 0x0030;

/// Offset of capture/compare register 1.
pub const TIM_CCR1: u32 = 0x0034;

/// The low half of a bus word: what a 16-bit register keeps of it.
pub open spec fn low_half(value: u32) -> u16 {
    (value & 0xffff) as u16
}

/// The registers of a timer.
pub struct TimState {
    pub name: Seq<char>,
    pub cr1: u16,
    pub arr: u16,
    pub psc: u16,
    pub rcr: u16,
    pub egr: u16,
    pub sr: u16,
    pub dier: u16,
    pub cnt: u16,
    pub ccr1: u16,
}

impl TimState {
    /// A timer called `name` with every register zero.
    pub open spec fn reset(name: Seq<char>) -> TimState {
        TimState {
            name: name,
            cr1: 0,
            arr: 0,
            psc: 0,
            rcr: 0,
            egr: 0,
            sr: 0,
            dier: 0,
            cnt: 0,
            ccr1: 0,
        }
    }

    /// What a read at `offset` returns.
    pub open spec fn read(self, offset: u32) -> u32 {
        if offset == TIM_CR1 {
            self.cr1 as u32
        } else if offset == TIM_DIER {
            self.dier as u32
        } else if offset == TIM_CNT {
            self.cnt as u32
        } else {
            0
        }
    }

    /// The registers after `value` is written at `offset`.
    pub open spec fn write(self, offset: u32, value: u32) -> TimState {
        if offset == TIM_CR1 {
            TimState { cr1: low_half(value), ..self }
        } else if offset == TIM_ARR {
            TimState { arr: low_half(value), ..self }
        } else if offset == TIM_PSC {
            TimState { psc: low_half(value), ..self }
        } else if offset == TIM_RCR {
            TimState { rcr: low_half(value), ..self }
        } else if offset == TIM_EGR {
            TimState { egr: low_half(value), ..self }
        } else if offset == TIM_DIER {
            TimState { dier: low_half(value), ..self }
        } else if offset == TIM_CCR1 {
            TimState { ccr1: low_half(value), ..self }
        } else {
            self
        }
    }
}

pub struct TIM {
    name: String,
    cr1: u16,
    arr: u16,
    psc: u16,
    rcr: u16,
    egr: u16,
    sr: u16,
    dier: u16,
    cnt: u16,
    ccr1: u16,
}

impl View for TIM {
    type V = TimState;

    closed spec fn view(&self) -> TimState {
        TimState {
            name: self.name@,
            cr1: self.cr1,
            arr: self.arr,
            psc: self.psc,
            rcr: self.rcr,
            egr: self.egr,
            sr: self.sr,
            dier: self.dier,
            cnt: self.cnt,
            ccr1: self.ccr1,
        }
    }
}

impl TIM {
    /// A timer called `name`, if `name` begins with "TIM".
    pub fn new(name: &str) -> (tim: Option<TIM>)
        ensures
            tim is Some <==> "TIM"@.is_prefix_of(name@),
            tim matches Some(tim) ==> tim@ == TimState::reset(name@),
    {
        if has_prefix(name, "TIM") {
            let name: String = name.to_owned();
            Some(
                TIM {
                    name,
                    cr1: 0,
                    arr: 0,
                    psc: 0,
                    rcr: 0,
                    egr: 0,
                    sr: 0,
                    dier: 0,
                    cnt: 0,
                    ccr1: 0,
                },
            )
        } else {
            None
        }
    }

    /// The name the timer was made with.
    pub fn name(&self) -> (name: &str)
        ensures
            name@ == self@.name,
    {
        self.name.as_str()
    }

    fn half(value: u32) -> (h: u16)
        ensures
            h == low_half(value),
    {
        (value & 0xffff) as u16
    }
}

impl Peripheral for TIM {
    fn read(&mut self, _sys: &System, offset: u32) -> (r: Result<u32, Unimplemented>)
        ensures
            r == Ok::<u32, Unimplemented>(old(self)@.read(offset)),
            final(self)@ == old(self)@,
    {
        if offset == TIM_CR1 {
            Ok(self.cr1 as u32)
        } else if offset == TIM_DIER {
            Ok(self.dier as u32)
        } else if offset == TIM_CNT {
            Ok(self.cnt as u32)
        } else {
            Ok(0)
        }
    }

    fn write(&mut self, _sys: &System, offset: u32, value: u32) -> (r: Result<(), Unimplemented>)
        ensures
            r == Ok::<(), Unimplemented>(()),
            final(self)@ == old(self)@.write(offset, value),
    {
        if offset == TIM_CR1 {
            self.cr1 = Self::half(value);
        } else if offset == TIM_ARR {
            self.arr = Self::half(value);
        } else if offset == TIM_PSC {
            self.psc = Self::half(value);
        } else if offset == TIM_RCR {
            self.rcr = Self::half(value);
        } else if offset == TIM_EGR {
            self.egr = Self::half(value);
        } else if offset == TIM_DIER {
            self.dier = Self::half(value);
        } else if offset == TIM_CCR1 {
            self.ccr1 = Self::half(value);
        }
        Ok(())
    }
}

} // verus!
