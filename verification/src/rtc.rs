//! The real-time clock: a register bank with fixed reset values. No time
//! passes in it, and only the control register keeps what is written.

use crate::peripheral::{has_prefix, Peripheral, Unimplemented};
use crate::system::System;
use vstd::prelude::*;

verus! {

/// Offset of the control register, the one register that can be written.
pub const RTC_CR: u32 = 0x08;

/// Offset of the initialization and status register.
pub const RTC_ISR: u32 = 0x0c;

/// Offset of the tamper and alternate function configuration register.
pub const RTC_TAFCR: u32 = 0x40;

/// Offset of the last register of the bank proper, the alarm B sub second
/// register.
pub const RTC_ALRMBSSR: u32 = 0x48;

/// Offset of the first backup register.
pub const RTC_BKP0R: u32 = 0x50;

/// What the status register always reads as: both alarm flags raised.
pub const ISR_ALARM_FLAGS: u32 = 0x60;

/// Number of registers in the bank proper, from the time register at
/// offset 0 to the alarm B sub second register.
pub const RTC_BANK_WORDS: usize = 19;

/// The registers of the clock.
pub struct RtcState {
    pub name: Seq<char>,
    /// The registers of the bank proper, the one at offset `4 * i` at
    /// index `i`.
    pub regs: Seq<u32>,
}

impl RtcState {
    /// A clock called `name` after reset: date, status, prescaler and
    /// wakeup timer hold their reset values, every other register is zero.
    pub open spec fn reset(name: Seq<char>) -> RtcState {
        RtcState {
            name: name,
            regs: seq![
                0u32,
                0x0000_2101,
                0,
                0x0000_0007,
                0x007F_00FF,
                0x0000_FFFF,
                0,
                0,
                0,
                0,
                0,
                0,
                0,
                0,
                0,
                0,
                0,
                0,
                0,
            ],
        }
    }

    /// What a read at `offset` returns: the register there, but for the
    /// status register, which always shows both alarm flags, and the first
    /// backup register, which mirrors the tamper configuration. The other
    /// backup registers, and offsets that hold no register, read as zero.
    pub open spec fn read(self, offset: u32) -> u32 {
        if offset == RTC_ISR {
            ISR_ALARM_FLAGS
        } else if offset == RTC_BKP0R {
            self.regs[(RTC_TAFCR / 4) as int]
        } else if offset <= RTC_ALRMBSSR && offset % 4 == 0 {
            self.regs[(offset / 4) as int]
        } else {
            0
        }
    }

    /// The registers after `value` is written at `offset`.
    pub open spec fn write(self, offset: u32, value: u32) -> RtcState {
        if offset == RTC_CR {
            RtcState { regs: self.regs.update((RTC_CR / 4) as int, value), ..self }
        } else {
            self
        }
    }
}

pub struct RTC {
    name: String,
    tr: u32,  // time register
    dr: u32,  // date register
    cr: u32,  // control register
    isr: u32,  // initialization and status register
    prer: u32,  // prescaler register
    wutr: u32,  // wakeup timer register
    calibr: u32,  // calibration register
    alrmar: u32,  // alarm A register
    alrmbr: u32,  // alarm B register
    wpr: u32,  // write protection register
    ssr: u32,  // sub second register
    shiftr: u32,  // shift control register
    tstr: u32,  // time stamp time register
    tsdr: u32,  // time stamp date register
    tsssr: u32,  // time stamp sub second register
    calr: u32,  // calibration register
    tafcr: u32,  // tamper and alternate function configuration register
    alrmassr: u32,  // alarm A sub second register
    alrmbssr: u32,  // alarm B sub second register
}

impl View for RTC {
    type V = RtcState;

    closed spec fn view(&self) -> RtcState {
        RtcState {
            name: self.name@,
            regs: seq![
                self.tr,
                self.dr,
                self.cr,
                self.isr,
                self.prer,
                self.wutr,
                self.calibr,
                self.alrmar,
                self.alrmbr,
                self.wpr,
                self.ssr,
                self.shiftr,
                self.tstr,
                self.tsdr,
                self.tsssr,
                self.calr,
                self.tafcr,
                self.alrmassr,
                self.alrmbssr,
            ],
        }
    }
}

impl RTC {
    /// A clock called `name`, if `name` begins with "RTC".
    pub fn new(name: &str) -> (rtc: Option<RTC>)
        ensures
            rtc is Some <==> "RTC"@.is_prefix_of(name@),
            rtc matches Some(rtc) ==> rtc@ == RtcState::reset(name@),
    {
        if has_prefix(name, "RTC") {
            let name: String = name.to_owned();
            let isr: u32 = 0x0000_0007;
            let prer: u32 = 0x007F_00FF;
            let wutr: u32 = 0x0000_FFFF;
            let dr: u32 = 0x0000_2101;

            let rtc = RTC {
                name,
                tr: 0,
                dr,
                cr: 0,
                isr,
                prer,
                wutr,
                calibr: 0,
                alrmar: 0,
                alrmbr: 0,
                wpr: 0,
                ssr: 0,
                shiftr: 0,
                tstr: 0,
                tsdr: 0,
                tsssr: 0,
                calr: 0,
                tafcr: 0,
                alrmassr: 0,
                alrmbssr: 0,
            };
            assert(rtc@.regs =~= RtcState::reset(name@).regs);
            Some(rtc)
        } else {
            None
        }
    }

    /// The name the clock was made with.
    pub fn name(&self) -> (name: &str)
        ensures
            name@ == self@.name,
    {
        self.name.as_str()
    }
}

impl Peripheral for RTC {
    fn read(&mut self, _sys: &System, offset: u32) -> (r: Result<u32, Unimplemented>)
        ensures
            r == Ok::<u32, Unimplemented>(old(self)@.read(offset)),
            final(self)@ == old(self)@,
    {
        assert((1u32 << 5) | (1u32 << 6) == ISR_ALARM_FLAGS) by (bit_vector);
        let value: u32 = match offset {
            0x00 => self.tr,
            0x04 => self.dr,
            0x08 => self.cr,
            // The alarm flags are raised by hardware when time and date
            // match an alarm; here they always show as raised.
            0x0c => (1 << 5) | (1 << 6),
            0x10 => self.prer,
            0x14 => self.wutr,
            0x18 => self.calibr,
            0x1c => self.alrmar,
            0x20 => self.alrmbr,
            0x24 => self.wpr,
            0x28 => self.ssr,
            0x2c => self.shiftr,
            0x30 => self.tstr,
            0x34 => self.tsdr,
            0x38 => self.tsssr,
            0x3c => self.calr,
            0x40 => self.tafcr,
            0x44 => self.alrmassr,
            0x48 => self.alrmbssr,
            0x50 => self.tafcr,
            _ => 0,
        };
        Ok(value)
    }

    fn write(&mut self, _sys: &System, offset: u32, value: u32) -> (r: Result<(), Unimplemented>)
        ensures
            r == Ok::<(), Unimplemented>(()),
            final(self)@ == old(self)@.write(offset, value),
    {
        match offset {
            0x08 => {
                self.cr = value;
                assert(self@.regs =~= old(self)@.regs.update(2, value));
            },
            // Every other register keeps its value.
            _ => {},
        }
        Ok(())
    }
}

} // verus!
