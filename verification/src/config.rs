//! Encoders from physical parameters (MHz, Hz, dBm, mA, bit lengths) to the
//! register values that select them.

use vstd::arithmetic::power2::pow2;
use vstd::prelude::*;

verus! {

/// Carrier frequency, in MHz, that the driver is normally brought up with.
pub const DEFAULT_FREQUENCY: i64 = 433;

/// Largest number of payload bytes in one packet: the size of the chip's FIFO
/// as the length register can express it.
pub const TX_CHUNK_SIZE: usize = 255;

// ---------------------------------------------------------------------------
// Carrier frequency

/// The 24-bit frequency word of a carrier of `freq` MHz.
pub open spec fn frf(freq: int) -> int {
    freq * 524288 / 32
}

/// Most significant byte of the frequency word.
pub open spec fn frf_msb(freq: int) -> u8 {
    ((frf(freq) / 65536) % 256) as u8
}

/// Middle byte of the frequency word.
pub open spec fn frf_mid(freq: int) -> u8 {
    ((frf(freq) / 256) % 256) as u8
}

/// Least significant byte of the frequency word.
pub open spec fn frf_lsb(freq: int) -> u8 {
    (frf(freq) % 256) as u8
}

/// The three bytes of the frequency word of `freq` MHz, most significant
/// first.
pub fn frf_bytes(freq: i64) -> (bytes: (u8, u8, u8))
    ensures
        bytes.0 == frf_msb(freq as int),
        bytes.1 == frf_mid(freq as int),
        bytes.2 == frf_lsb(freq as int),
{
    let wide: i128 = freq as i128;
    let word: i128 = wide * 16384;
    assert(freq as int * 524288 / 32 == freq as int * 16384) by (nonlinear_arith);
    let msb: u8 = #[verifier::truncate] (((word & 0x00FF_0000) >> 16) as u8);
    let mid: u8 = #[verifier::truncate] (((word & 0x0000_FF00) >> 8) as u8);
    let lsb: u8 = #[verifier::truncate] ((word & 0x0000_00FF) as u8);
    assert(((word & 0x00FF_0000) >> 16) as u8 == ((word as int) / 65536) % 256) by (bit_vector);
    assert(((word & 0x0000_FF00) >> 8) as u8 == ((word as int) / 256) % 256) by (bit_vector);
    assert((word & 0x0000_00FF) as u8 == (word as int) % 256) by (bit_vector);
    (msb, mid, lsb)
}

// ---------------------------------------------------------------------------
// Signal bandwidth

/// The code of a supported signal bandwidth, in Hz; 9 for any other value.
pub open spec fn bandwidth_code_of(hz: int) -> u8 {
    if hz == 7_800 {
        0
    } else if hz == 10_400 {
        1
    } else if hz == 15_600 {
        2
    } else if hz == 20_800 {
        3
    } else if hz == 31_250 {
        4
    } else if hz == 41_700 {
        5
    } else if hz == 62_500 {
        6
    } else if hz == 125_000 {
        7
    } else if hz == 250_000 {
        8
    } else {
        9
    }
}

/// The signal bandwidth, in Hz, that a code stands for; -1 for the codes
/// that stand for none.
pub open spec fn bandwidth_hz_of(code: u8) -> i64 {
    if code == 0 {
        7_800
    } else if code == 1 {
        10_400
    } else if code == 2 {
        15_600
    } else if code == 3 {
        20_800
    } else if code == 4 {
        31_250
    } else if code == 5 {
        41_700
    } else if code == 6 {
        62_500
    } else if code == 7 {
        125_000
    } else if code == 8 {
        250_000
    } else if code == 9 {
        500_000
    } else {
        -1i64
    }
}

/// Returns the code of a signal bandwidth given in Hz.
pub fn bandwidth_code(hz: i64) -> (code: u8)
    ensures
        code == bandwidth_code_of(hz as int),
        code <= 9,
{
    if hz == 7_800 {
        0
    } else if hz == 10_400 {
        1
    } else if hz == 15_600 {
        2
    } else if hz == 20_800 {
        3
    } else if hz == 31_250 {
        4
    } else if hz == 41_700 {
        5
    } else if hz == 62_500 {
        6
    } else if hz == 125_000 {
        7
    } else if hz == 250_000 {
        8
    } else {
        9
    }
}

/// Returns the signal bandwidth in Hz that a code stands for.
pub fn bandwidth_hz(code: u8) -> (hz: i64)
    ensures
        hz == bandwidth_hz_of(code),
{
    if code == 0 {
        7_800
    } else if code == 1 {
        10_400
    } else if code == 2 {
        15_600
    } else if code == 3 {
        20_800
    } else if code == 4 {
        31_250
    } else if code == 5 {
        41_700
    } else if code == 6 {
        62_500
    } else if code == 7 {
        125_000
    } else if code == 8 {
        250_000
    } else if code == 9 {
        500_000
    } else {
        -1
    }
}

/// Values of the two bandwidth-optimization registers for a bandwidth code
/// at a carrier of `frequency` MHz. Code 9 takes the pair that the errata
/// give for the band the carrier is in; every other code takes the chip's
/// defaults.
pub open spec fn high_bw_optimize_of(code: u8, frequency: int) -> (u8, u8) {
    if code == 9 {
        if frequency < 525 {
            (0x02, 0x7f)
        } else {
            (0x02, 0x64)
        }
    } else {
        (0x03, 0x65)
    }
}

/// Returns the values of the two bandwidth-optimization registers.
pub fn high_bw_optimize(code: u8, frequency: i64) -> (pair: (u8, u8))
    ensures
        pair == high_bw_optimize_of(code, frequency as int),
{
    if code == 9 {
        if frequency < 525 {
            (0x02, 0x7f)
        } else {
            (0x02, 0x64)
        }
    } else {
        (0x03, 0x65)
    }
}

/// A 4-bit code placed in the high nibble of a register.
pub open spec fn high_nibble_of(code: u8) -> u8 {
    (16 * (code % 16)) as u8
}

/// Returns `code` shifted into the high nibble.
pub fn high_nibble(code: u8) -> (bits: u8)
    requires
        code < 16,
    ensures
        bits == high_nibble_of(code),
        bits as int == 16 * code,
{
    assert(((code << 4) & 0xf0) as int == 16 * code) by (bit_vector)
        requires
            code < 16,
    ;
    (code << 4) & 0xf0
}

// ---------------------------------------------------------------------------
// Spreading factor

/// The spreading factor the chip is given for a requested one: the request
/// held to the range 6 to 12.
pub open spec fn spreading_factor_of(sf: u8) -> u8 {
    if sf < 6 {
        6
    } else if sf > 12 {
        12
    } else {
        sf
    }
}

/// Returns the requested spreading factor held to the range 6 to 12.
pub fn clamp_spreading_factor(sf: u8) -> (out: u8)
    ensures
        out == spreading_factor_of(sf),
        6 <= out <= 12,
{
    if sf < 6 {
        6
    } else if sf > 12 {
        12
    } else {
        sf
    }
}

/// Values of the detection-optimize and detection-threshold registers for a
/// spreading factor.
pub open spec fn detection_of(sf: u8) -> (u8, u8) {
    if sf == 6 {
        (0xc5, 0x0c)
    } else {
        (0xc3, 0x0a)
    }
}

/// Returns the values of the detection-optimize and detection-threshold
/// registers for a spreading factor.
pub fn detection(sf: u8) -> (pair: (u8, u8))
    ensures
        pair == detection_of(sf),
{
    if sf == 6 {
        (0xc5, 0x0c)
    } else {
        (0xc3, 0x0a)
    }
}

// ---------------------------------------------------------------------------
// Low-data-rate optimization

/// Whether a symbol lasts longer than 16 ms at a bandwidth in Hz and a
/// spreading factor: with `rate = bandwidth / 2^sf` symbols per second, a
/// symbol lasts `1000 / rate` ms. A rate below one symbol per second makes
/// the symbol longer than any bound. Without a bandwidth (a value that is not
/// positive) no symbol counts as long.
pub open spec fn low_data_rate_of(bandwidth: int, sf: nat) -> bool {
    let rate = bandwidth / (pow2(sf) as int);
    bandwidth > 0 && (rate == 0 || 1000int / rate > 16)
}

/// Returns whether the low-data-rate optimization is due at a bandwidth in
/// Hz and a spreading factor.
pub fn low_data_rate(bandwidth: i64, sf: u8) -> (on: bool)
    ensures
        on == low_data_rate_of(bandwidth as int, sf as nat),
{
    if bandwidth <= 0 {
        return false;
    }
    if sf >= 63 {
        proof {
            vstd::arithmetic::power2::lemma2_to64_rest();
            if sf > 63 {
                vstd::arithmetic::power2::lemma_pow2_strictly_increases(63, sf as nat);
            }
            vstd::arithmetic::div_mod::lemma_basic_div(bandwidth as int, pow2(sf as nat) as int);
        }
        return true;
    }
    let hz: u64 = bandwidth as u64;
    let rate: u64 = hz >> sf;
    proof {
        vstd::bits::lemma_u64_shr_is_div(hz, sf as u64);
    }
    if rate == 0 {
        true
    } else {
        1000 / rate > 16
    }
}

// ---------------------------------------------------------------------------
// Coding rate

/// The code of a coding rate 4/`denominator`: the denominator held to the
/// range 5 to 8, less 4.
pub open spec fn coding_rate_of(denominator: u8) -> u8 {
    if denominator < 5 {
        1
    } else if denominator > 8 {
        4
    } else {
        (denominator - 4) as u8
    }
}

/// The coding rate code in its place in modem configuration 1, bits 1 to 3.
pub open spec fn coding_rate_bits_of(denominator: u8) -> u8 {
    (2 * coding_rate_of(denominator)) as u8
}

/// Returns the coding rate code for a denominator, shifted to bits 1 to 3.
pub fn coding_rate_bits(denominator: u8) -> (bits: u8)
    ensures
        bits == coding_rate_bits_of(denominator),
{
    let held: u8 = if denominator < 5 {
        5
    } else if denominator > 8 {
        8
    } else {
        denominator
    };
    let cr: u8 = held - 4;
    assert((cr << 1) as int == 2 * cr) by (bit_vector)
        requires
            cr <= 4,
    ;
    cr << 1
}

// ---------------------------------------------------------------------------
// Preamble length

/// High byte of the 16-bit preamble length.
pub open spec fn preamble_msb(length: int) -> u8 {
    ((length / 256) % 256) as u8
}

/// Low byte of the 16-bit preamble length.
pub open spec fn preamble_lsb(length: int) -> u8 {
    (length % 256) as u8
}

/// Returns the two bytes of a preamble length, high byte first.
pub fn preamble_bytes(length: i64) -> (bytes: (u8, u8))
    ensures
        bytes.0 == preamble_msb(length as int),
        bytes.1 == preamble_lsb(length as int),
{
    let msb: u8 = #[verifier::truncate] ((length >> 8) as u8);
    let lsb: u8 = #[verifier::truncate] (length as u8);
    assert((length >> 8) as u8 == ((length as int) / 256) % 256) by (bit_vector);
    assert(length as u8 == (length as int) % 256) by (bit_vector);
    (msb, lsb)
}

// ---------------------------------------------------------------------------
// Over-current protection

/// The trim of the over-current protection for a limit in mA.
pub open spec fn ocp_trim_of(ma: int) -> int {
    if ma <= 120 {
        (ma - 45) / 5
    } else if ma <= 240 {
        (ma + 30) / 10
    } else {
        27
    }
}

/// The value of the over-current protection register for a limit in mA: the
/// enable bit (0x20) with the trim in the five bits below it.
pub open spec fn ocp_value_of(ma: int) -> u8 {
    (32 + ocp_trim_of(ma) % 32) as u8
}

/// Returns the value of the over-current protection register for a limit in
/// mA. The limiter starts at 45 mA.
pub fn ocp_value(ma: u8) -> (value: u8)
    requires
        ma >= 45,
    ensures
        value == ocp_value_of(ma as int),
        0 <= ocp_trim_of(ma as int) <= 27,
{
    let wide: u16 = ma as u16;
    let trim: u16 = if wide <= 120 {
        (wide - 45) / 5
    } else if wide <= 240 {
        (wide + 30) / 10
    } else {
        27
    };
    let narrow: u8 = trim as u8;
    assert((0x20u8 | (0x1Fu8 & narrow)) as int == 32 + narrow) by (bit_vector)
        requires
            narrow <= 27,
    ;
    0x20 | (0x1F & narrow)
}

// ---------------------------------------------------------------------------
// Transmit power

/// Over-current limit, in mA, that goes with the high-power setting.
pub const HIGH_POWER_OCP: u8 = 140;

/// Over-current limit, in mA, that goes with the standard setting.
pub const STANDARD_OCP: u8 = 100;

/// Value of the high-power unlock register that enables +20 dBm operation.
pub const PA_DAC_HIGH_POWER: u8 = 0x87;

/// Value of the high-power unlock register for standard operation.
pub const PA_DAC_STANDARD: u8 = 0x84;

/// Value of the power-amplifier configuration register on the RFO path: the
/// level held to the range 0 to 14, under the maximum-power bits 0x70.
pub open spec fn rfo_config_of(level: int) -> u8 {
    let held = if level < 0 {
        0
    } else if level > 14 {
        14
    } else {
        level
    };
    (0x70 + held) as u8
}

/// Whether a level on the boost path needs the high-power setting.
pub open spec fn boost_is_high_power(level: int) -> bool {
    level > 17
}

/// Value of the power-amplifier configuration register on the boost path.
/// Above 17 the level is held to at most 20 and lowered by 3; otherwise it is
/// held to at least 2. Either way it is lowered by 2 more and merged with the
/// boost-enable bit 0x80.
pub open spec fn boost_config_of(level: int) -> u8 {
    let scaled = if level > 17 {
        (if level > 20 {
            20
        } else {
            level
        }) - 3
    } else if level < 2 {
        2
    } else {
        level
    };
    (0x80 + (scaled - 2)) as u8
}

/// Returns the value of the power-amplifier configuration register on the
/// RFO path.
pub fn rfo_config(level: i32) -> (value: u8)
    ensures
        value == rfo_config_of(level as int),
{
    let held: u8 = if level < 0 {
        0
    } else if level > 14 {
        14
    } else {
        level as u8
    };
    assert((0x70u8 | held) as int == 0x70 + held) by (bit_vector)
        requires
            held <= 14,
    ;
    0x70 | held
}

/// Returns the value of the power-amplifier configuration register on the
/// boost path.
pub fn boost_config(level: i32) -> (value: u8)
    ensures
        value == boost_config_of(level as int),
{
    let scaled: u8 = if level > 17 {
        if level > 20 {
            17
        } else {
            (level - 3) as u8
        }
    } else if level < 2 {
        2
    } else {
        level as u8
    };
    let last: u8 = scaled - 2;
    assert((0x80u8 | last) as int == 0x80 + last) by (bit_vector)
        requires
            last <= 15,
    ;
    0x80 | last
}

// ---------------------------------------------------------------------------
// IQ inversion

/// Values of the two IQ registers: inverted or normal.
pub open spec fn invert_iq_of(inverted: bool) -> (u8, u8) {
    if inverted {
        (0x66, 0x19)
    } else {
        (0x27, 0x1d)
    }
}

/// Returns the values of the two IQ registers.
pub fn invert_iq(inverted: bool) -> (pair: (u8, u8))
    ensures
        pair == invert_iq_of(inverted),
{
    if inverted {
        (0x66, 0x19)
    } else {
        (0x27, 0x1d)
    }
}

} // verus!
