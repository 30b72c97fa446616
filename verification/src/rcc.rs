//! The reset and clock controller: a register bank that reports every
//! clock as ready.

use crate::peripheral::{is_named, Peripheral, Unimplemented};
use crate::system::System;
use vstd::prelude::*;

verus! {

/// Offset of the clock control register.
pub const RCC_CR: u32 = 0x0000;

/// Offset of the clock configuration register.
pub const RCC_CFGR: u32 = 0x0008;

/// Offset of the backup domain control register.
pub const RCC_BDCR: u32 = 0x0070;

/// Offset of the clock control and status register.
pub const RCC_CSR: u32 = 0x0074;

/// The bit of the control and status register that says that the internal
/// low-speed oscillator is ready.
pub const LSIRDY: u32 = 2;

/// The registers of the clock controller that hold state.
pub struct RccState {
    /// Backup domain control register, as last written.
    pub bdcr: u32,
    /// Clock control and status register.
    pub csr: u32,
}

impl RccState {
    /// What a read at `offset` returns.
    pub open spec fn read(self, offset: u32) -> u32 {
        if offset == RCC_CR {
            // Every ready flag is set.
            0xFFFF_FFFF
        } else if offset == RCC_CFGR {
            0b1000
        } else if offset == RCC_BDCR {
            // Once written, the external low-speed oscillator shows as on.
            if self.bdcr != 0 {
                self.bdcr | 2
            } else {
                self.bdcr
            }
        } else if offset == RCC_CSR {
            self.csr
        } else {
            0
        }
    }

    /// The registers after `value` is written at `offset`.
    pub open spec fn write(self, offset: u32, value: u32) -> RccState {
        if offset == RCC_BDCR {
            RccState { bdcr: value, ..self }
        } else if offset == RCC_CSR {
            if value & 1 == 1 {
                RccState { csr: self.csr | LSIRDY, ..self }
            } else if value == 0 {
                RccState { csr: self.csr & !LSIRDY, ..self }
            } else {
                self
            }
        } else {
            self
        }
    }
}

pub struct Rcc {
    bdcr: u32,
    csr: u32,
}

enum RccLsiRcOscillatorMode {
    RccLsiRcOscillatorOn,
    RccLsiRcOscillatorOff,
}

impl View for Rcc {
    type V = RccState;

    closed spec fn view(&self) -> RccState {
        RccState { bdcr: self.bdcr, csr: self.csr }
    }
}

impl Rcc {
    /// The clock controller, if `name` is "RCC".
    pub fn new(name: &str) -> (rcc: Option<Rcc>)
        ensures
            rcc is Some <==> name@ == "RCC"@,
            rcc matches Some(rcc) ==> rcc@ == (RccState { bdcr: 0, csr: 0x0e00_0000 }),
    {
        if is_named(name, "RCC") {
            Some(Rcc { bdcr: 0x0, csr: 0x0e00_0000 })
        } else {
            None
        }
    }

    fn set_lsi_rc_oscillator(&mut self, mode: RccLsiRcOscillatorMode)
        ensures
            final(self).bdcr == old(self).bdcr,
            final(self).csr == match mode {
                RccLsiRcOscillatorMode::RccLsiRcOscillatorOn => old(self).csr | LSIRDY,
                RccLsiRcOscillatorMode::RccLsiRcOscillatorOff => old(self).csr & !LSIRDY,
            },
    {
        match mode {
            RccLsiRcOscillatorMode::RccLsiRcOscillatorOn => {
                self.csr = self.csr | LSIRDY;
            },
            RccLsiRcOscillatorMode::RccLsiRcOscillatorOff => {
                self.csr = self.csr & !LSIRDY;
            },
        }
    }
}

impl Peripheral for Rcc {
    fn read(&mut self, _sys: &System, offset: u32) -> (r: Result<u32, Unimplemented>)
        ensures
            r == Ok::<u32, Unimplemented>(old(self)@.read(offset)),
            final(self)@ == old(self)@,
    {
        if offset == RCC_CR {
            Ok(0xFFFF_FFFF)
        } else if offset == RCC_CFGR {
            Ok(0b1000)
        } else if offset == RCC_BDCR {
            if self.bdcr != 0x0 {
                Ok(self.bdcr | 2)
            } else {
                Ok(self.bdcr)
            }
        } else if offset == RCC_CSR {
            Ok(self.csr)
        } else {
            Ok(0)
        }
    }

    fn write(&mut self, _sys: &System, offset: u32, value: u32) -> (r: Result<(), Unimplemented>)
        ensures
            r == Ok::<(), Unimplemented>(()),
            final(self)@ == old(self)@.write(offset, value),
    {
        if offset == RCC_BDCR {
            self.bdcr = value;
        } else if offset == RCC_CSR {
            assert(((value << 31) >> 31) == 1 <==> value & 1 == 1) by (bit_vector);
            if ((value << 31) >> 31) == 1 {
                self.set_lsi_rc_oscillator(RccLsiRcOscillatorMode::RccLsiRcOscillatorOn);
            } else if value == 0 {
                self.set_lsi_rc_oscillator(RccLsiRcOscillatorMode::RccLsiRcOscillatorOff);
            }
        }
        Ok(())
    }
}

} // verus!
