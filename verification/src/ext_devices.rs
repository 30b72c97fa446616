//! Devices that sit outside the microcontroller, at the far end of one of
//! its peripherals.

use crate::system::System;
use vstd::prelude::*;

verus! {

/// A device that a peripheral exchanges values of type `T` with, at
/// addresses of type `A`. What a device hands back is its own affair: a
/// peripheral passes it on as it comes.
pub trait ExtDevice<A, T> {
    /// Attaches the device to the peripheral called `peri_name` and returns
    /// the name under which the pair is known from then on.
    fn connect_peripheral(&mut self, peri_name: &str) -> String;

    /// The next value the device has for the peripheral.
    fn read(&mut self, sys: &System, addr: A) -> T;

    /// Hands `v` to the device.
    fn write(&mut self, sys: &System, addr: A, v: T);
}

} // verus!
