//! Operating modes of the radio.

use vstd::prelude::*;

verus! {

/// Bit of the mode register that selects long-range (LoRa) modulation. It is
/// part of every value the driver writes to that register.
pub const LONG_RANGE_MODE: u8 = 0x80;

/// Modes of the radio and their corresponding register values.
#[derive(Clone, Copy, Debug, PartialEq, Eq, Structural)]
pub enum RadioMode {
    Sleep,
    Stdby,
    FsTx,
    Tx,
    RxContinuous,
    RxSingle,
}

impl RadioMode {
    /// The low-order code of the mode in the mode register.
    pub open spec fn code(self) -> u8 {
        match self {
            RadioMode::Sleep => 0x00,
            RadioMode::Stdby => 0x01,
            RadioMode::FsTx => 0x02,
            RadioMode::Tx => 0x03,
            RadioMode::RxContinuous => 0x05,
            RadioMode::RxSingle => 0x06,
        }
    }

    /// The byte written to the mode register to select the mode: its code
    /// with the long-range bit set.
    pub open spec fn register_value(self) -> u8 {
        LONG_RANGE_MODE | self.code()
    }

    /// Returns the address of the mode.
    #[verifier::when_used_as_spec(code)]
    pub fn addr(self) -> (code: u8)
        ensures
            code == self.code(),
            code <= 0x06,
    {
        match self {
            RadioMode::Sleep => 0x00,
            RadioMode::Stdby => 0x01,
            RadioMode::FsTx => 0x02,
            RadioMode::Tx => 0x03,
            RadioMode::RxContinuous => 0x05,
            RadioMode::RxSingle => 0x06,
        }
    }

    /// Returns the byte that selects the mode in the mode register.
    pub fn op_mode(self) -> (value: u8)
        ensures
            value == self.register_value(),
            value as int == 128 + self.code(),
    {
        let code: u8 = self.addr();
        assert((0x80u8 | code) as int == 128 + code) by (bit_vector)
            requires
                code <= 0x06,
        ;
        LONG_RANGE_MODE | code
    }
}

} // verus!
