//! The pins and the speed of a serial device.

use vstd::prelude::*;
use wokwi_chip_ll::PinId;

verus! {

/// How a pin is set up when it is initialised.
#[derive(Debug, Clone, Copy, PartialEq, Eq)]
pub enum PinMode {
    Input,
    Output,
    InputPullUp,
    InputPullDown,
    Analog,
    /// An output that starts low.
    OutputEnd,
}

impl PinMode {
    /// The number by which the simulator knows the mode.
    pub open spec fn spec_code(self) -> u32 {
        match self {
            PinMode::Input => 0,
            PinMode::Output => 1,
            PinMode::InputPullUp => 2,
            PinMode::InputPullDown => 3,
            PinMode::Analog => 4,
            PinMode::OutputEnd => 16,
        }
    }

    /// The number by which the simulator knows the mode.
    #[verifier::when_used_as_spec(spec_code)]
    pub fn code(self) -> (n: u32)
        ensures
            n == self.spec_code(),
    {
        match self {
            PinMode::Input => 0,
            PinMode::Output => 1,
            PinMode::InputPullUp => 2,
            PinMode::InputPullDown => 3,
            PinMode::Analog => 4,
            PinMode::OutputEnd => 16,
        }
    }
}

/// A pin that has a name and is not initialised yet.
pub struct Pin {
    name: Vec<u8>,
    mode: PinMode,
}

impl Pin {
    /// The bytes of the pin's name.
    pub closed spec fn spec_name(&self) -> Seq<u8> {
        self.name@
    }

    /// The mode the pin is to be initialised in.
    pub closed spec fn spec_mode(&self) -> PinMode {
        self.mode
    }

    /// A pin with the given name and mode.
    pub fn new(name: Vec<u8>, mode: PinMode) -> (pin: Pin)
        ensures
            pin.spec_name() == name@,
            pin.spec_mode() == mode,
    {
        Pin { name, mode }
    }

    /// The bytes of the pin's name.
    pub fn name(&self) -> (name: &Vec<u8>)
        ensures
            name@ == self.spec_name(),
    {
        &self.name
    }

    /// The mode the pin is to be initialised in.
    pub fn mode(&self) -> (mode: PinMode)
        ensures
            mode == self.spec_mode(),
    {
        self.mode
    }
}

/// The two initialised pins of a serial device and its speed.
pub struct UartPins {
    pub rx: PinId,
    pub tx: PinId,
    pub baud_rate: u32,
}

impl UartPins {
    /// The configuration with pins that are initialised already.
    pub fn new_raw(rx: PinId, tx: PinId, baud_rate: u32) -> (pins: UartPins)
        ensures
            pins.rx == rx,
            pins.tx == tx,
            pins.baud_rate == baud_rate,
    {
        Self { rx, tx, baud_rate }
    }
}

} // verus!
