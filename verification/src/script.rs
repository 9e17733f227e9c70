//! The steps an operation is made of. Every operation of the driver is a
//! script: a sequence of instructions, each of which stands for a short,
//! fixed exchange with the chip.

use crate::config::{
    bandwidth_code, boost_config, clamp_spreading_factor, coding_rate_bits, detection,
    frf_bytes, high_bw_optimize, high_nibble, invert_iq, ocp_value, preamble_bytes, rfo_config,
    boost_config_of, boost_is_high_power, coding_rate_bits_of, detection_of, frf_lsb, frf_mid,
    frf_msb, high_bw_optimize_of, high_nibble_of, invert_iq_of, bandwidth_code_of, ocp_value_of,
    preamble_lsb, preamble_msb, rfo_config_of, spreading_factor_of, HIGH_POWER_OCP,
    PA_DAC_HIGH_POWER, PA_DAC_STANDARD, STANDARD_OCP, TX_CHUNK_SIZE,
};
use crate::mode::RadioMode;
use crate::register::{PaConfig, Register};
use vstd::prelude::*;

verus! {

/// How the byte read by a `Fetch` becomes the outcome of the operation.
#[derive(Clone, Copy, Debug, PartialEq, Eq)]
pub enum Decode {
    /// The byte as it is.
    Byte,
    /// The high nibble of the byte.
    HighNibble,
    /// The bandwidth in Hz that the high nibble stands for.
    Bandwidth,
    /// Whether the transmit-complete flag is set in the byte.
    TxDone,
    /// The byte as a number of bytes.
    Length,
}

/// What is to happen when the chip is asked whether it transmits.
#[derive(Clone, Copy, Debug, PartialEq, Eq)]
pub enum Policy {
    /// The answer is the outcome.
    Report,
    /// A chip that transmits ends the operation with an error. `chunk` is the
    /// index of the chunk of a bulk transfer that starts here, if any.
    Refuse { chunk: Option<usize> },
    /// The question is repeated until the chip no longer transmits.
    Wait,
}

/// One step of a script.
#[derive(Clone, Copy, Debug, PartialEq, Eq)]
pub enum Instr {
    /// Write `value` to register `reg`.
    Write { reg: u8, value: u8 },
    /// Write the mode register; once written, the mode is the device's mode.
    Enter { mode: RadioMode },
    /// Read register `reg`, keep the bits of `keep`, set the bits of `set`,
    /// write the result back.
    Update { reg: u8, keep: u8, set: u8 },
    /// Select the header format in modem configuration 1; once written, the
    /// format is the device's format.
    Header { explicit: bool },
    /// Read register `reg`; the byte, decoded, is the outcome.
    Fetch { reg: u8, decode: Decode },
    /// Read bandwidth and spreading factor back from the chip and set the
    /// low-data-rate-optimization flag to what they call for.
    LowDataRate,
    /// Ask whether the chip transmits; clear a stale transmit-complete flag
    /// if it does not.
    Transmitting { policy: Policy },
    /// Poll the IRQ flags until a packet has been received. With a budget the
    /// polls are 1 ms apart and the operation fails once as many polls as the
    /// budget have come back empty and one more does; without one they are
    /// 100 ms apart and go on until a packet arrives.
    AwaitPacket { budget: Option<i32> },
    /// Read the version register; any value but the expected one ends the
    /// operation with an error.
    Version,
    /// Read the length and the start address of the packet received, drain
    /// that many bytes from the FIFO and reset the FIFO pointer.
    Drain,
    /// Wait.
    Pause { millis: u64 },
    /// Drive the reset line low.
    ResetLow,
    /// Drive the reset line high.
    ResetHigh,
    /// Drive chip-select high.
    Deselect,
}

/// Bits of modem configuration 1 kept when the explicit header is selected.
pub const EXPLICIT_HEADER_KEEP: u8 = 0xfe;

/// Bits of modem configuration 1 kept when the implicit header is selected.
pub const IMPLICIT_HEADER_KEEP: u8 = 0x01;

/// Interval between two polls for a packet under a budget, in ms.
pub const BOUNDED_POLL_INTERVAL: u64 = 1;

/// Interval between two polls for a packet without a budget, in ms.
pub const UNBOUNDED_POLL_INTERVAL: u64 = 100;

/// Length of each half of the reset pulse, in ms.
pub const RESET_PULSE: u64 = 10;

// ---------------------------------------------------------------------------
// The scripts of the operations

/// Reading one register.
pub open spec fn read_register_script(reg: u8) -> Seq<Instr> {
    seq![Instr::Fetch { reg, decode: Decode::Byte }]
}

/// Writing one register.
pub open spec fn write_register_script(reg: u8, value: u8) -> Seq<Instr> {
    seq![Instr::Write { reg, value }]
}

/// Reasserting the header format, where the device is set up to do so.
pub open spec fn header_script(reassert: bool, explicit: bool) -> Seq<Instr> {
    if reassert {
        seq![Instr::Header { explicit }]
    } else {
        Seq::empty()
    }
}

/// Changing the mode: the header format is reasserted first, then the mode
/// register is written.
pub open spec fn mode_script(mode: RadioMode, reassert: bool, explicit: bool) -> Seq<Instr> {
    header_script(reassert, explicit) + seq![Instr::Enter { mode }]
}

/// Setting the transmit power. Pin 0 is the RFO path; any other pin is the
/// boost path, which also sets the high-power unlock register and the
/// over-current protection that go with the level.
pub open spec fn tx_power_script(level: int, output_pin: u8) -> Seq<Instr> {
    if output_pin == 0 {
        seq![Instr::Write { reg: Register::RegPaConfig.address(), value: rfo_config_of(level) }]
    } else if boost_is_high_power(level) {
        seq![
            Instr::Write { reg: Register::RegPaDac.address(), value: PA_DAC_HIGH_POWER },
            Instr::Write {
                reg: Register::RegOcp.address(),
                value: ocp_value_of(HIGH_POWER_OCP as int),
            },
            Instr::Write { reg: Register::RegPaConfig.address(), value: boost_config_of(level) },
        ]
    } else {
        seq![
            Instr::Write { reg: Register::RegPaDac.address(), value: PA_DAC_STANDARD },
            Instr::Write {
                reg: Register::RegOcp.address(),
                value: ocp_value_of(STANDARD_OCP as int),
            },
            Instr::Write { reg: Register::RegPaConfig.address(), value: boost_config_of(level) },
        ]
    }
}

/// Clearing the IRQ flags: the flags read are written back.
pub open spec fn clear_irq_script() -> Seq<Instr> {
    seq![Instr::Update { reg: Register::RegIrqFlags.address(), keep: 0xff, set: 0 }]
}

/// Waiting for a packet: enter continuous receive, poll until the packet is
/// there, clear the IRQ flags, read the number of bytes received.
pub open spec fn poll_irq_script(budget: Option<i32>, reassert: bool, explicit: bool) -> Seq<
    Instr,
> {
    mode_script(RadioMode::RxContinuous, reassert, explicit) + seq![
        Instr::AwaitPacket { budget },
    ] + clear_irq_script() + seq![
        Instr::Fetch { reg: Register::RegRxNbBytes.address(), decode: Decode::Length },
    ]
}

/// Setting the carrier frequency: the three bytes of the frequency word,
/// most significant first.
pub open spec fn frequency_script(freq: int) -> Seq<Instr> {
    seq![
        Instr::Write { reg: Register::RegFrfMsb.address(), value: frf_msb(freq) },
        Instr::Write { reg: Register::RegFrfMid.address(), value: frf_mid(freq) },
        Instr::Write { reg: Register::RegFrfLsb.address(), value: frf_lsb(freq) },
    ]
}

/// Setting the over-current protection.
pub open spec fn ocp_script(ma: int) -> Seq<Instr> {
    seq![Instr::Write { reg: Register::RegOcp.address(), value: ocp_value_of(ma) }]
}

/// Setting the spreading factor: the detection registers that go with it,
/// then the factor into the high nibble of modem configuration 2, then the
/// low-data-rate flag anew.
pub open spec fn spreading_factor_script(sf: u8) -> Seq<Instr> {
    let held = spreading_factor_of(sf);
    seq![
        Instr::Write {
            reg: Register::RegDetectionOptimize.address(),
            value: detection_of(held).0,
        },
        Instr::Write {
            reg: Register::RegDetectionThreshold.address(),
            value: detection_of(held).1,
        },
        Instr::Update {
            reg: Register::RegModemConfig2.address(),
            keep: 0x0f,
            set: high_nibble_of(held),
        },
        Instr::LowDataRate,
    ]
}

/// Setting the signal bandwidth at a carrier of `frequency` MHz: the
/// optimization registers that go with it, then its code into the high
/// nibble of modem configuration 1, then the low-data-rate flag anew.
pub open spec fn signal_bandwidth_script(hz: int, frequency: int) -> Seq<Instr> {
    let code = bandwidth_code_of(hz);
    seq![
        Instr::Write {
            reg: Register::RegHighBWOptimize1.address(),
            value: high_bw_optimize_of(code, frequency).0,
        },
        Instr::Write {
            reg: Register::RegHighBWOptimize2.address(),
            value: high_bw_optimize_of(code, frequency).1,
        },
        Instr::Update {
            reg: Register::RegModemConfig1.address(),
            keep: 0x0f,
            set: high_nibble_of(code),
        },
        Instr::LowDataRate,
    ]
}

/// Setting the coding rate: its code into bits 1 to 3 of modem
/// configuration 1.
pub open spec fn coding_rate_script(denominator: u8) -> Seq<Instr> {
    seq![
        Instr::Update {
            reg: Register::RegModemConfig1.address(),
            keep: 0xf1,
            set: coding_rate_bits_of(denominator),
        },
    ]
}

/// Setting the preamble length: high byte, then low byte.
pub open spec fn preamble_script(length: int) -> Seq<Instr> {
    seq![
        Instr::Write { reg: Register::RegPreambleMsb.address(), value: preamble_msb(length) },
        Instr::Write { reg: Register::RegPreambleLsb.address(), value: preamble_lsb(length) },
    ]
}

/// Switching the CRC on or off: bit 2 of modem configuration 2.
pub open spec fn crc_script(on: bool) -> Seq<Instr> {
    if on {
        seq![Instr::Update { reg: Register::RegModemConfig2.address(), keep: 0xff, set: 0x04 }]
    } else {
        seq![Instr::Update { reg: Register::RegModemConfig2.address(), keep: 0xfb, set: 0x00 }]
    }
}

/// Inverting the IQ signals or not.
pub open spec fn invert_iq_script(inverted: bool) -> Seq<Instr> {
    seq![
        Instr::Write { reg: Register::RegInvertiq.address(), value: invert_iq_of(inverted).0 },
        Instr::Write { reg: Register::RegInvertiq2.address(), value: invert_iq_of(inverted).1 },
    ]
}

/// The writes that load a payload into the FIFO, one per byte, in order.
pub open spec fn fifo_script(payload: Seq<u8>) -> Seq<Instr> {
    Seq::new(
        payload.len(),
        |i: int| Instr::Write { reg: Register::RegFifo.address(), value: payload[i] },
    )
}

/// Transmitting a payload of at most 255 bytes: refuse if the chip
/// transmits; enter standby; reassert the header format; zero the IRQ
/// flags, the FIFO pointer and the payload length; load the payload; set the
/// payload length; enter transmit; and, if asked to, wait until the chip no
/// longer transmits.
pub open spec fn transmit_script(
    payload: Seq<u8>,
    wait: bool,
    chunk: Option<usize>,
    reassert: bool,
    explicit: bool,
) -> Seq<Instr> {
    seq![Instr::Transmitting { policy: Policy::Refuse { chunk } }] + mode_script(
        RadioMode::Stdby,
        reassert,
        explicit,
    ) + header_script(reassert, explicit) + seq![
        Instr::Write { reg: Register::RegIrqFlags.address(), value: 0 },
        Instr::Write { reg: Register::RegFifoAddrPtr.address(), value: 0 },
        Instr::Write { reg: Register::RegPayloadLength.address(), value: 0 },
    ] + fifo_script(payload) + seq![
        Instr::Write { reg: Register::RegPayloadLength.address(), value: payload.len() as u8 },
        Instr::Enter { mode: RadioMode::Tx },
    ] + if wait {
        seq![Instr::Transmitting { policy: Policy::Wait }]
    } else {
        Seq::empty()
    }
}

/// Reading the packet received: clear the IRQ flags, then drain the FIFO.
pub open spec fn read_packet_script() -> Seq<Instr> {
    clear_irq_script() + seq![Instr::Drain]
}

/// The transmissions of a bulk transfer: `data` is sent front to back in
/// chunks of 255 bytes, the last one as long as what is left, each as one
/// waiting transmission. `index` is the index of the first chunk.
pub open spec fn chunks_script(data: Seq<u8>, index: nat, reassert: bool, explicit: bool) -> Seq<
    Instr,
>
    decreases data.len(),
{
    if data.len() == 0 {
        Seq::empty()
    } else {
        let n = if data.len() < TX_CHUNK_SIZE {
            data.len() as int
        } else {
            TX_CHUNK_SIZE as int
        };
        transmit_script(data.take(n), true, Some(index as usize), reassert, explicit)
            + chunks_script(data.skip(n), index + 1, reassert, explicit)
    }
}

/// A bulk transfer: route the transmit-complete interrupt, then send the
/// data chunk by chunk.
pub open spec fn bulk_script(data: Seq<u8>, reassert: bool, explicit: bool) -> Seq<Instr> {
    seq![Instr::Write { reg: Register::RegDioMapping1.address(), value: 0x01 }] + chunks_script(
        data,
        0,
        reassert,
        explicit,
    )
}

/// Bringing the chip up at a carrier of `frequency` MHz: pulse the reset
/// line, check the version, enter sleep, set both FIFO base addresses to 0,
/// apply the initial configuration (preamble 8, bandwidth 125 kHz, coding
/// rate 4/5, spreading factor 7, CRC on, 20 dBm on the boost path, LNA boost,
/// automatic gain control), enter standby and release chip-select.
///
/// The reset pulse is 10 ms low and 10 ms high, and the line stays high. Some
/// boards are driven with one more low pulse after that; whether the chip
/// needs it is for its reset timing to say, and this sequence does without.
pub open spec fn bring_up_script(frequency: int, reassert: bool) -> Seq<Instr> {
    seq![
        Instr::ResetLow,
        Instr::Pause { millis: RESET_PULSE },
        Instr::ResetHigh,
        Instr::Pause { millis: RESET_PULSE },
        Instr::Version,
    ] + mode_script(RadioMode::Sleep, reassert, false) + seq![
        Instr::Write { reg: Register::RegFifoTxBaseAddr.address(), value: 0 },
        Instr::Write { reg: Register::RegFifoRxBaseAddr.address(), value: 0 },
    ] + frequency_script(frequency) + preamble_script(8) + signal_bandwidth_script(
        125_000,
        frequency,
    ) + coding_rate_script(5) + spreading_factor_script(7) + crc_script(true) + tx_power_script(
        20,
        1,
    ) + seq![
        Instr::Update { reg: Register::RegLna.address(), keep: 0xff, set: 0x03 },
        Instr::Write { reg: Register::RegModemConfig3.address(), value: 0x04 },
    ] + mode_script(RadioMode::Stdby, reassert, false) + seq![Instr::Deselect]
}

} // verus!

verus! {

// ---------------------------------------------------------------------------
// Writing the scripts out

/// Appends the reassertion of the header format.
pub fn push_header(script: &mut Vec<Instr>, reassert: bool, explicit: bool)
    ensures
        final(script)@ == old(script)@ + header_script(reassert, explicit),
{
    if reassert {
        script.push(Instr::Header { explicit });
    }
    assert(script@ =~= old(script)@ + header_script(reassert, explicit));
}

/// Appends a change of mode.
pub fn push_mode(script: &mut Vec<Instr>, mode: RadioMode, reassert: bool, explicit: bool)
    ensures
        final(script)@ == old(script)@ + mode_script(mode, reassert, explicit),
{
    push_header(script, reassert, explicit);
    script.push(Instr::Enter { mode });
    assert(script@ =~= old(script)@ + mode_script(mode, reassert, explicit));
}

/// Appends the setting of the transmit power.
pub fn push_tx_power(script: &mut Vec<Instr>, level: i32, output_pin: u8)
    ensures
        final(script)@ == old(script)@ + tx_power_script(level as int, output_pin),
{
    if output_pin == PaConfig::PaOutputRfoPin.addr() {
        script.push(Instr::Write { reg: Register::RegPaConfig.addr(), value: rfo_config(level) });
    } else {
        if level > 17 {
            script.push(Instr::Write { reg: Register::RegPaDac.addr(), value: PA_DAC_HIGH_POWER });
            script.push(
                Instr::Write { reg: Register::RegOcp.addr(), value: ocp_value(HIGH_POWER_OCP) },
            );
        } else {
            script.push(Instr::Write { reg: Register::RegPaDac.addr(), value: PA_DAC_STANDARD });
            script.push(
                Instr::Write { reg: Register::RegOcp.addr(), value: ocp_value(STANDARD_OCP) },
            );
        }
        script.push(
            Instr::Write { reg: Register::RegPaConfig.addr(), value: boost_config(level) },
        );
    }
    assert(script@ =~= old(script)@ + tx_power_script(level as int, output_pin));
}

/// Appends the clearing of the IRQ flags.
pub fn push_clear_irq(script: &mut Vec<Instr>)
    ensures
        final(script)@ == old(script)@ + clear_irq_script(),
{
    script.push(Instr::Update { reg: Register::RegIrqFlags.addr(), keep: 0xff, set: 0 });
    assert(script@ =~= old(script)@ + clear_irq_script());
}

/// Appends the setting of the carrier frequency.
pub fn push_frequency(script: &mut Vec<Instr>, freq: i64)
    ensures
        final(script)@ == old(script)@ + frequency_script(freq as int),
{
    let bytes: (u8, u8, u8) = frf_bytes(freq);
    script.push(Instr::Write { reg: Register::RegFrfMsb.addr(), value: bytes.0 });
    script.push(Instr::Write { reg: Register::RegFrfMid.addr(), value: bytes.1 });
    script.push(Instr::Write { reg: Register::RegFrfLsb.addr(), value: bytes.2 });
    assert(script@ =~= old(script)@ + frequency_script(freq as int));
}

/// Appends the setting of the spreading factor.
pub fn push_spreading_factor(script: &mut Vec<Instr>, sf: u8)
    ensures
        final(script)@ == old(script)@ + spreading_factor_script(sf),
{
    let held: u8 = clamp_spreading_factor(sf);
    let pair: (u8, u8) = detection(held);
    script.push(Instr::Write { reg: Register::RegDetectionOptimize.addr(), value: pair.0 });
    script.push(Instr::Write { reg: Register::RegDetectionThreshold.addr(), value: pair.1 });
    script.push(
        Instr::Update { reg: Register::RegModemConfig2.addr(), keep: 0x0f, set: high_nibble(held) },
    );
    script.push(Instr::LowDataRate);
    assert(script@ =~= old(script)@ + spreading_factor_script(sf));
}

/// Appends the setting of the signal bandwidth.
pub fn push_signal_bandwidth(script: &mut Vec<Instr>, hz: i64, frequency: i64)
    ensures
        final(script)@ == old(script)@ + signal_bandwidth_script(hz as int, frequency as int),
{
    let code: u8 = bandwidth_code(hz);
    let pair: (u8, u8) = high_bw_optimize(code, frequency);
    script.push(Instr::Write { reg: Register::RegHighBWOptimize1.addr(), value: pair.0 });
    script.push(Instr::Write { reg: Register::RegHighBWOptimize2.addr(), value: pair.1 });
    script.push(
        Instr::Update { reg: Register::RegModemConfig1.addr(), keep: 0x0f, set: high_nibble(code) },
    );
    script.push(Instr::LowDataRate);
    assert(script@ =~= old(script)@ + signal_bandwidth_script(hz as int, frequency as int));
}

/// Appends the setting of the coding rate.
pub fn push_coding_rate(script: &mut Vec<Instr>, denominator: u8)
    ensures
        final(script)@ == old(script)@ + coding_rate_script(denominator),
{
    script.push(
        Instr::Update {
            reg: Register::RegModemConfig1.addr(),
            keep: 0xf1,
            set: coding_rate_bits(denominator),
        },
    );
    assert(script@ =~= old(script)@ + coding_rate_script(denominator));
}

/// Appends the setting of the preamble length.
pub fn push_preamble(script: &mut Vec<Instr>, length: i64)
    ensures
        final(script)@ == old(script)@ + preamble_script(length as int),
{
    let bytes: (u8, u8) = preamble_bytes(length);
    script.push(Instr::Write { reg: Register::RegPreambleMsb.addr(), value: bytes.0 });
    script.push(Instr::Write { reg: Register::RegPreambleLsb.addr(), value: bytes.1 });
    assert(script@ =~= old(script)@ + preamble_script(length as int));
}

/// Appends the switching of the CRC.
pub fn push_crc(script: &mut Vec<Instr>, on: bool)
    ensures
        final(script)@ == old(script)@ + crc_script(on),
{
    if on {
        script.push(Instr::Update { reg: Register::RegModemConfig2.addr(), keep: 0xff, set: 0x04 });
    } else {
        script.push(Instr::Update { reg: Register::RegModemConfig2.addr(), keep: 0xfb, set: 0x00 });
    }
    assert(script@ =~= old(script)@ + crc_script(on));
}

/// Appends the setting of the IQ inversion.
pub fn push_invert_iq(script: &mut Vec<Instr>, inverted: bool)
    ensures
        final(script)@ == old(script)@ + invert_iq_script(inverted),
{
    let pair: (u8, u8) = invert_iq(inverted);
    script.push(Instr::Write { reg: Register::RegInvertiq.addr(), value: pair.0 });
    script.push(Instr::Write { reg: Register::RegInvertiq2.addr(), value: pair.1 });
    assert(script@ =~= old(script)@ + invert_iq_script(inverted));
}

/// Appends the transmission of the first `length` bytes of `payload`.
pub fn push_transmit(
    script: &mut Vec<Instr>,
    payload: &[u8],
    length: usize,
    wait: bool,
    chunk: Option<usize>,
    reassert: bool,
    explicit: bool,
)
    requires
        length <= payload@.len(),
        length <= TX_CHUNK_SIZE,
    ensures
        final(script)@ == old(script)@ + transmit_script(
            payload@.take(length as int),
            wait,
            chunk,
            reassert,
            explicit,
        ),
{
    let ghost bytes = payload@.take(length as int);
    script.push(Instr::Transmitting { policy: Policy::Refuse { chunk } });
    push_mode(script, RadioMode::Stdby, reassert, explicit);
    push_header(script, reassert, explicit);
    script.push(Instr::Write { reg: Register::RegIrqFlags.addr(), value: 0 });
    script.push(Instr::Write { reg: Register::RegFifoAddrPtr.addr(), value: 0 });
    script.push(Instr::Write { reg: Register::RegPayloadLength.addr(), value: 0 });
    let ghost head = script@;
    assert(head =~= old(script)@ + (seq![Instr::Transmitting { policy: Policy::Refuse { chunk } }]
        + mode_script(RadioMode::Stdby, reassert, explicit) + header_script(reassert, explicit)
        + seq![
        Instr::Write { reg: Register::RegIrqFlags.address(), value: 0 },
        Instr::Write { reg: Register::RegFifoAddrPtr.address(), value: 0 },
        Instr::Write { reg: Register::RegPayloadLength.address(), value: 0 },
    ]));
    let mut i: usize = 0;
    while i < length
        invariant
            i <= length <= payload@.len(),
            bytes == payload@.take(length as int),
            script@ == head + fifo_script(bytes.take(i as int)),
        decreases length - i,
    {
        script.push(Instr::Write { reg: Register::RegFifo.addr(), value: payload[i] });
        i = i + 1;
        assert(script@ =~= head + fifo_script(bytes.take(i as int)));
    }
    assert(bytes.take(length as int) =~= bytes);
    script.push(Instr::Write { reg: Register::RegPayloadLength.addr(), value: length as u8 });
    script.push(Instr::Enter { mode: RadioMode::Tx });
    if wait {
        script.push(Instr::Transmitting { policy: Policy::Wait });
    }
    assert(script@ =~= old(script)@ + transmit_script(bytes, wait, chunk, reassert, explicit));
}

/// Appends the transmissions of a bulk transfer of `data`.
pub fn push_chunks(script: &mut Vec<Instr>, data: &[u8], reassert: bool, explicit: bool)
    ensures
        final(script)@ == old(script)@ + chunks_script(data@, 0, reassert, explicit),
{
    let mut offset: usize = 0;
    let mut index: usize = 0;
    let total: usize = data.len();
    assert(data@.skip(0) =~= data@);
    while offset < total
        invariant
            offset <= total == data@.len(),
            index <= offset,
            old(script)@ + chunks_script(data@, 0, reassert, explicit) == script@ + chunks_script(
                data@.skip(offset as int),
                index as nat,
                reassert,
                explicit,
            ),
        decreases total - offset,
    {
        let left: usize = total - offset;
        let n: usize = if left < TX_CHUNK_SIZE {
            left
        } else {
            TX_CHUNK_SIZE
        };
        let chunk: &[u8] = vstd::slice::slice_subrange(data, offset, offset + n);
        let ghost before = script@;
        let ghost rest = data@.skip(offset as int);
        assert(chunk@.take(n as int) =~= rest.take(n as int));
        assert(rest.skip(n as int) =~= data@.skip(offset + n));
        push_transmit(script, chunk, n, true, Some(index), reassert, explicit);
        assert(before + chunks_script(rest, index as nat, reassert, explicit) =~= script@
            + chunks_script(data@.skip(offset + n), (index + 1) as nat, reassert, explicit));
        offset = offset + n;
        index = index + 1;
    }
    assert(data@.skip(offset as int).len() == 0);
    assert(script@ =~= old(script)@ + chunks_script(data@, 0, reassert, explicit));
}

/// Appends the bringing up of the chip.
pub fn push_bring_up(script: &mut Vec<Instr>, frequency: i64, reassert: bool)
    ensures
        final(script)@ == old(script)@ + bring_up_script(frequency as int, reassert),
{
    script.push(Instr::ResetLow);
    script.push(Instr::Pause { millis: RESET_PULSE });
    script.push(Instr::ResetHigh);
    script.push(Instr::Pause { millis: RESET_PULSE });
    script.push(Instr::Version);
    push_mode(script, RadioMode::Sleep, reassert, false);
    script.push(Instr::Write { reg: Register::RegFifoTxBaseAddr.addr(), value: 0 });
    script.push(Instr::Write { reg: Register::RegFifoRxBaseAddr.addr(), value: 0 });
    push_frequency(script, frequency);
    push_preamble(script, 8);
    push_signal_bandwidth(script, 125_000, frequency);
    push_coding_rate(script, 5);
    push_spreading_factor(script, 7);
    push_crc(script, true);
    push_tx_power(script, 20, 1);
    script.push(Instr::Update { reg: Register::RegLna.addr(), keep: 0xff, set: 0x03 });
    script.push(Instr::Write { reg: Register::RegModemConfig3.addr(), value: 0x04 });
    push_mode(script, RadioMode::Stdby, reassert, false);
    script.push(Instr::Deselect);
    assert(script@ =~= old(script)@ + bring_up_script(frequency as int, reassert));
}

} // verus!
