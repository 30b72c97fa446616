//! A serial port: three configuration registers that keep what is written
//! to them, a status register that always shows the port as ready, and a
//! data register that passes bytes to and from an attached device.

use crate::ext_devices::ExtDevice;
use crate::peripheral::{has_prefix, Peripheral, Unimplemented};
use crate::system::System;
use vstd::prelude::*;

verus! {

/// Offset of the status register.
pub const USART_SR: u32 = 0x0000;

/// Offset of the data register.
pub const USART_DR: u32 = 0x0004;

/// Offset of the baud rate register.
pub const USART_BRR: u32 = 0x0008;

/// Offset of control register 1.
pub const USART_CR1: u32 = 0x000c;

/// Offset of control register 2.
pub const USART_CR2: u32 = 0x0010;

/// What the status register always reads as: transmit register empty,
/// transmission complete, received data ready, line idle.
pub const SR_READY: u32 = 0xF0;

/// The state of a serial port, without that of its device.
pub struct UsartState {
    pub name: Seq<char>,
    /// Whether a device is attached.
    pub connected: bool,
    pub cr1: u32,
    pub cr2: u32,
    pub brr: u32,
}

impl UsartState {
    /// Whether the port has a register at `offset`.
    pub open spec fn implements(offset: u32) -> bool {
        offset == USART_SR || offset == USART_DR || offset == USART_BRR || offset == USART_CR1
            || offset == USART_CR2
    }

    /// What a read at `offset` returns, where the port alone decides it.
    pub open spec fn read(self, offset: u32) -> u32 {
        if offset == USART_SR {
            SR_READY
        } else if offset == USART_BRR {
            self.brr
        } else if offset == USART_CR1 {
            self.cr1
        } else if offset == USART_CR2 {
            self.cr2
        } else {
            0
        }
    }

    /// The state after `value` is written at `offset`.
    pub open spec fn write(self, offset: u32, value: u32) -> UsartState {
        if offset == USART_BRR {
            UsartState { brr: value, ..self }
        } else if offset == USART_CR1 {
            UsartState { cr1: value, ..self }
        } else if offset == USART_CR2 {
            UsartState { cr2: value, ..self }
        } else {
            self
        }
    }
}

/// What the data register reads as when the device has handed over
/// `byte`, or when there is no device.
pub open spec fn received_word(byte: Option<u8>) -> u32 {
    match byte {
        Some(b) => b as u32,
        None => 0,
    }
}

/// The byte of a word written to the data register that goes out to the
/// device: the lowest one.
pub open spec fn sent_byte(value: u32) -> u8 {
    (value & 0xff) as u8
}

pub struct Usart<D: ExtDevice<(), u8>> {
    pub name: String,
    pub ext_device: Option<D>,
    cr1: u32,  // Control Register 1
    cr2: u32,  // Control Register 2
    brr: u32,  // Baud rate register
}

impl<D: ExtDevice<(), u8>> View for Usart<D> {
    type V = UsartState;

    closed spec fn view(&self) -> UsartState {
        UsartState {
            name: self.name@,
            connected: self.ext_device is Some,
            cr1: self.cr1,
            cr2: self.cr2,
            brr: self.brr,
        }
    }
}

impl<D: ExtDevice<(), u8>> Usart<D> {
    /// A serial port called `name`, if `name` begins with "USART", with
    /// `ext_device` attached to it. An attached device chooses the name the
    /// port goes by.
    pub fn new(name: &str, ext_device: Option<D>) -> (usart: Option<Usart<D>>)
        ensures
            usart is Some <==> "USART"@.is_prefix_of(name@),
            usart matches Some(usart) ==> {
                &&& usart@.connected == ext_device is Some
                &&& ext_device is None ==> usart@.name == name@
                &&& usart@.cr1 == 0
                &&& usart@.cr2 == 0
                &&& usart@.brr == 0
            },
    {
        if has_prefix(name, "USART") {
            let mut ext_device = ext_device;
            let name: String = match &mut ext_device {
                Some(d) => d.connect_peripheral(name),
                None => name.to_owned(),
            };
            Some(Usart { name, ext_device, cr1: 0, cr2: 0, brr: 0 })
        } else {
            None
        }
    }

    /// The word that the data register reads as, given what the device
    /// handed over.
    pub fn received(byte: Option<u8>) -> (value: u32)
        ensures
            value == received_word(byte),
            value <= 0xff,
    {
        match byte {
            Some(b) => b as u32,
            None => 0,
        }
    }

    /// The byte that goes out to the device when `value` is written to the
    /// data register.
    pub fn sent(value: u32) -> (byte: u8)
        ensures
            byte == sent_byte(value),
    {
        (value & 0xff) as u8
    }
}

impl<D: ExtDevice<(), u8>> Peripheral for Usart<D> {
    fn read(&mut self, sys: &System, offset: u32) -> (r: Result<u32, Unimplemented>)
        ensures
            final(self)@ == old(self)@,
            if offset == USART_DR {
                r matches Ok(value) && value <= 0xff && (!old(self)@.connected ==> value == 0)
            } else if UsartState::implements(offset) {
                r == Ok::<u32, Unimplemented>(old(self)@.read(offset))
            } else {
                r == Err::<u32, Unimplemented>(Unimplemented { offset })
            },
    {
        if offset == USART_SR {
            assert((1u32 << 7) | (1u32 << 6) | (1u32 << 5) | (1u32 << 4) == SR_READY)
                by (bit_vector);
            Ok((1 << 7) | (1 << 6) | (1 << 5) | (1 << 4))
        } else if offset == USART_DR {
            let byte: Option<u8> = match &mut self.ext_device {
                Some(d) => Some(d.read(sys, ())),
                None => None,
            };
            Ok(Self::received(byte))
        } else if offset == USART_BRR {
            Ok(self.brr)
        } else if offset == USART_CR1 {
            Ok(self.cr1)
        } else if offset == USART_CR2 {
            Ok(self.cr2)
        } else {
            Err(Unimplemented { offset })
        }
    }

    fn write(&mut self, sys: &System, offset: u32, value: u32) -> (r: Result<(), Unimplemented>)
        ensures
            final(self)@ == old(self)@.write(offset, value),
            r == if UsartState::implements(offset) && offset != USART_SR {
                Ok::<(), Unimplemented>(())
            } else {
                Err::<(), Unimplemented>(Unimplemented { offset })
            },
    {
        if offset == USART_DR {
            match &mut self.ext_device {
                Some(d) => {
                    d.write(sys, (), Self::sent(value));
                },
                None => {},
            }
            Ok(())
        } else if offset == USART_BRR {
            self.brr = value;
            Ok(())
        } else if offset == USART_CR1 {
            self.cr1 = value;
            Ok(())
        } else if offset == USART_CR2 {
            self.cr2 = value;
            Ok(())
        } else {
            Err(Unimplemented { offset })
        }
    }
}

} // verus!
