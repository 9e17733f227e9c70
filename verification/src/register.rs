//! Register map of the transceiver: symbolic names for the 7-bit register
//! addresses and for the bit fields the driver touches.

use vstd::prelude::*;

verus! {

/// Registers of the chip in long-range mode.
#[derive(Clone, Copy, Debug, PartialEq, Eq, Structural)]
pub enum Register {
    RegFifo,
    RegOpMode,
    RegFrfMsb,
    RegFrfMid,
    RegFrfLsb,
    RegPaConfig,
    RegOcp,
    RegLna,
    RegFifoAddrPtr,
    RegFifoTxBaseAddr,
    RegFifoRxBaseAddr,
    RegFifoRxCurrentAddr,
    RegIrqFlags,
    RegRxNbBytes,
    RegPktSnrValue,
    RegPktRssiValue,
    RegModemConfig1,
    RegModemConfig2,
    RegPreambleMsb,
    RegPreambleLsb,
    RegPayloadLength,
    RegModemConfig3,
    RegFreqErrorMsb,
    RegFreqErrorMid,
    RegFreqErrorLsb,
    RegRssiWideband,
    RegDetectionOptimize,
    RegInvertiq,
    RegHighBWOptimize1,
    RegDetectionThreshold,
    RegSyncWord,
    RegHighBWOptimize2,
    RegInvertiq2,
    RegDioMapping1,
    RegVersion,
    RegTcxo,
    RegPaDac,
}

impl Register {
    /// The 7-bit address of the register.
    pub open spec fn address(self) -> u8 {
        match self {
            Register::RegFifo => 0x00,
            Register::RegOpMode => 0x01,
            Register::RegFrfMsb => 0x06,
            Register::RegFrfMid => 0x07,
            Register::RegFrfLsb => 0x08,
            Register::RegPaConfig => 0x09,
            Register::RegOcp => 0x0b,
            Register::RegLna => 0x0c,
            Register::RegFifoAddrPtr => 0x0d,
            Register::RegFifoTxBaseAddr => 0x0e,
            Register::RegFifoRxBaseAddr => 0x0f,
            Register::RegFifoRxCurrentAddr => 0x10,
            Register::RegIrqFlags => 0x12,
            Register::RegRxNbBytes => 0x13,
            Register::RegPktSnrValue => 0x19,
            Register::RegPktRssiValue => 0x1a,
            Register::RegModemConfig1 => 0x1d,
            Register::RegModemConfig2 => 0x1e,
            Register::RegPreambleMsb => 0x20,
            Register::RegPreambleLsb => 0x21,
            Register::RegPayloadLength => 0x22,
            Register::RegModemConfig3 => 0x26,
            Register::RegFreqErrorMsb => 0x28,
            Register::RegFreqErrorMid => 0x29,
            Register::RegFreqErrorLsb => 0x2a,
            Register::RegRssiWideband => 0x2c,
            Register::RegDetectionOptimize => 0x31,
            Register::RegInvertiq => 0x33,
            Register::RegHighBWOptimize1 => 0x36,
            Register::RegDetectionThreshold => 0x37,
            Register::RegSyncWord => 0x39,
            Register::RegHighBWOptimize2 => 0x3a,
            Register::RegInvertiq2 => 0x3b,
            Register::RegDioMapping1 => 0x40,
            Register::RegVersion => 0x42,
            Register::RegTcxo => 0x4b,
            Register::RegPaDac => 0x4d,
        }
    }

    /// Returns the address of the register.
    #[verifier::when_used_as_spec(address)]
    pub fn addr(self) -> (a: u8)
        ensures
            a == self.address(),
            a < 0x80,
    {
        match self {
            Register::RegFifo => 0x00,
            Register::RegOpMode => 0x01,
            Register::RegFrfMsb => 0x06,
            Register::RegFrfMid => 0x07,
            Register::RegFrfLsb => 0x08,
            Register::RegPaConfig => 0x09,
            Register::RegOcp => 0x0b,
            Register::RegLna => 0x0c,
            Register::RegFifoAddrPtr => 0x0d,
            Register::RegFifoTxBaseAddr => 0x0e,
            Register::RegFifoRxBaseAddr => 0x0f,
            Register::RegFifoRxCurrentAddr => 0x10,
            Register::RegIrqFlags => 0x12,
            Register::RegRxNbBytes => 0x13,
            Register::RegPktSnrValue => 0x19,
            Register::RegPktRssiValue => 0x1a,
            Register::RegModemConfig1 => 0x1d,
            Register::RegModemConfig2 => 0x1e,
            Register::RegPreambleMsb => 0x20,
            Register::RegPreambleLsb => 0x21,
            Register::RegPayloadLength => 0x22,
            Register::RegModemConfig3 => 0x26,
            Register::RegFreqErrorMsb => 0x28,
            Register::RegFreqErrorMid => 0x29,
            Register::RegFreqErrorLsb => 0x2a,
            Register::RegRssiWideband => 0x2c,
            Register::RegDetectionOptimize => 0x31,
            Register::RegInvertiq => 0x33,
            Register::RegHighBWOptimize1 => 0x36,
            Register::RegDetectionThreshold => 0x37,
            Register::RegSyncWord => 0x39,
            Register::RegHighBWOptimize2 => 0x3a,
            Register::RegInvertiq2 => 0x3b,
            Register::RegDioMapping1 => 0x40,
            Register::RegVersion => 0x42,
            Register::RegTcxo => 0x4b,
            Register::RegPaDac => 0x4d,
        }
    }
}

/// Output path selection in the power-amplifier configuration register.
#[derive(Clone, Copy, Debug, PartialEq, Eq, Structural)]
pub enum PaConfig {
    /// The boost-enable bit: the PA_BOOST pin drives the antenna.
    PaBoost,
    /// The RFO pin drives the antenna (boost bit clear).
    PaOutputRfoPin,
}

impl PaConfig {
    pub open spec fn value(self) -> u8 {
        match self {
            PaConfig::PaBoost => 0x80,
            PaConfig::PaOutputRfoPin => 0x00,
        }
    }

    /// Returns the bit pattern of the selection.
    #[verifier::when_used_as_spec(value)]
    pub fn addr(self) -> (a: u8)
        ensures
            a == self.value(),
    {
        match self {
            PaConfig::PaBoost => 0x80,
            PaConfig::PaOutputRfoPin => 0x00,
        }
    }
}

/// Masks of the flags in the IRQ flags register.
#[derive(Clone, Copy, Debug, PartialEq, Eq, Structural)]
pub enum IRQ {
    /// Transmit complete (bit 3).
    IrqTxDoneMask,
    /// Payload CRC error (bit 5).
    IrqPayloadCrcErrorMask,
    /// Receive complete (bit 6).
    IrqRxDoneMask,
}

impl IRQ {
    pub open spec fn mask(self) -> u8 {
        match self {
            IRQ::IrqTxDoneMask => 0x08,
            IRQ::IrqPayloadCrcErrorMask => 0x20,
            IRQ::IrqRxDoneMask => 0x40,
        }
    }

    /// Returns the mask of the flag.
    #[verifier::when_used_as_spec(mask)]
    pub fn addr(self) -> (a: u8)
        ensures
            a == self.mask(),
    {
        match self {
            IRQ::IrqTxDoneMask => 0x08,
            IRQ::IrqPayloadCrcErrorMask => 0x20,
            IRQ::IrqRxDoneMask => 0x40,
        }
    }
}

/// Position of the receive-complete flag in the IRQ flags register.
pub const RX_DONE_BIT: usize = 6;

/// Position of the low-data-rate-optimization flag in modem configuration 3.
pub const LOW_DATA_RATE_BIT: usize = 3;

/// Identifier that the version register of this chip family holds.
pub const VERSION_CHECK: u8 = 0x12;

} // verus!
