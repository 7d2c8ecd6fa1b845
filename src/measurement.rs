//! What a measurement on the pressure sensor consists of: the register
//! writes that start it, how long to wait before the result may be read,
//! and how the result bytes are put together.
use vstd::prelude::*;

verus! {

/// The register that starts a conversion when written.
pub const CONTROL_REGISTER: u8 = 0xF4;

/// The first register of a conversion's result.
pub const RESULT_REGISTER: u8 = 0xF6;

/// The command that starts a temperature conversion.
pub const TEMPERATURE_COMMAND: u8 = 0x2E;

/// The command that starts a pressure conversion at oversampling 0.
pub const PRESSURE_COMMAND: u8 = 0x34;

/// Milliseconds to wait after starting a temperature conversion.
pub const TEMPERATURE_SETTLE_MS: u64 = 5;

/// The oversampling setting that sessions use.
pub const DEFAULT_OVERSAMPLING: u8 = 3;

/// Milliseconds to wait after starting a pressure conversion.
pub open spec fn pressure_wait(oversampling: int) -> int {
    2 + 8 * oversampling
}

/// How far the 24-bit pressure result is shifted right.
pub open spec fn pressure_shift(oversampling: int) -> int {
    8 - oversampling
}

/// The raw pressure made of the three result bytes, most significant
/// first, with the bits below the oversampling's precision dropped.
pub open spec fn raw_pressure_of(msb: u8, lsb: u8, xlsb: u8, oversampling: int) -> int {
    (msb * 0x1_0000 + lsb * 0x100 + xlsb) / vstd::arithmetic::power2::pow2(
        pressure_shift(oversampling) as nat,
    ) as int
}

/// The command byte that starts a pressure conversion: the oversampling
/// setting stands in the two high bits.
pub fn pressure_command(oversampling: u8) -> (r: u8)
    requires
        oversampling <= 3,
    ensures
        r == PRESSURE_COMMAND + 64 * oversampling,
{
    PRESSURE_COMMAND + oversampling * 64
}

/// Milliseconds to wait after starting a pressure conversion before its
/// result may be read.
pub fn pressure_settle_ms(oversampling: u8) -> (r: u64)
    requires
        oversampling <= 3,
    ensures
        r == pressure_wait(oversampling as int),
{
    2 + oversampling as u64 * 8
}

/// Assembles the raw pressure from the three result bytes, read most
/// significant first.
pub fn raw_pressure(msb: u8, lsb: u8, xlsb: u8, oversampling: u8) -> (r: u32)
    requires
        oversampling <= 3,
    ensures
        r == raw_pressure_of(msb, lsb, xlsb, oversampling as int),
{
    let word: u32 = ((msb as u32) << 16u32) | ((lsb as u32) << 8u32) | (xlsb as u32);
    let shift: u32 = 8 - oversampling as u32;
    let r = word >> shift;
    proof {
        assert(word == msb * 0x1_0000 + lsb * 0x100 + xlsb) by (bit_vector)
            requires
                word == ((msb as u32) << 16u32) | ((lsb as u32) << 8u32) | (xlsb as u32),
        ;
        vstd::arithmetic::power2::lemma2_to64();
        assert(r == word / (1u32 << shift)) by (bit_vector)
            requires
                r == word >> shift,
                shift <= 8,
        ;
        assert(1u32 << shift == vstd::arithmetic::power2::pow2(shift as nat)) by {
            assert(shift == 5 || shift == 6 || shift == 7 || shift == 8);
            if shift == 5 {
                assert(1u32 << 5u32 == 32) by (bit_vector);
            } else if shift == 6 {
                assert(1u32 << 6u32 == 64) by (bit_vector);
            } else if shift == 7 {
                assert(1u32 << 7u32 == 128) by (bit_vector);
            } else {
                assert(1u32 << 8u32 == 256) by (bit_vector);
            }
        }
    }
    r
}

/// A higher oversampling setting waits strictly longer before the pressure
/// is read, and shifts the raw result by strictly fewer bits.
pub proof fn lemma_oversampling_lengthens_wait(a: u8, b: u8)
    requires
        a < b <= 3,
    ensures
        pressure_wait(a as int) < pressure_wait(b as int),
        pressure_shift(a as int) > pressure_shift(b as int),
{
}

} // verus!
