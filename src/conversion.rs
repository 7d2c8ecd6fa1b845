//! The vendor's fixed-point compensation of raw temperature and pressure
//! readings.
//!
//! Every intermediate value is a 32-bit two's-complement integer: products
//! and sums wrap, right shifts are arithmetic, divisions truncate toward
//! zero. The one exception is `b4` and the pressure quotient, which the
//! vendor computes on unsigned 32-bit values. The spec functions below give
//! each intermediate its datasheet name.
use vstd::prelude::*;

use crate::calibration::Bmp085Parameters;

verus! {

/// A division by zero met while compensating a reading: the calibration
/// data is corrupt or the reading far outside the sensor's range.
#[derive(Debug, Clone, Copy, PartialEq, Eq)]
pub enum ArithmeticError {
    /// `x1 + md`, the divisor of the temperature step, is zero.
    ZeroTemperatureDivisor,
    /// `b4`, the divisor of the pressure step, is zero.
    ZeroPressureDivisor,
}

/// Division of integers as the machine does it: the quotient is truncated
/// toward zero.
pub open spec fn div_toward_zero(a: int, b: int) -> int {
    let q = abs(a) / abs(b);
    if (a >= 0) == (b >= 0) {
        q
    } else {
        -q
    }
}

/// The absolute value of an integer.
pub open spec fn abs(a: int) -> int {
    if a >= 0 {
        a
    } else {
        -a
    }
}

impl Bmp085Parameters {
    /// `x1` of the temperature step: `((ut - ac6) * ac5) >> 15`.
    pub open spec fn temp_x1(&self, ut: u16) -> i32 {
        ((ut as int - self.ac6 as int) as i32).wrapping_mul(self.ac5 as i32) >> 15u32
    }

    /// The divisor of the temperature step: `x1 + md`.
    pub open spec fn temp_divisor(&self, ut: u16) -> int {
        self.temp_x1(ut) + self.md as int
    }

    /// `b5 = x1 + (mc << 11) / (x1 + md)`, where the divisor is not zero.
    pub open spec fn b5(&self, ut: u16) -> i32 {
        (self.temp_x1(ut) + div_toward_zero(self.mc * 2048, self.temp_divisor(ut))) as i32
    }

    /// The compensated temperature in tenths of a degree Celsius:
    /// `(b5 + 8) >> 4`, a 32-bit value.
    pub open spec fn real_temp(&self, ut: u16) -> i32 {
        self.b5(ut).wrapping_add(8) >> 4u32
    }

    /// `b6 = b5 - 4000`.
    pub open spec fn b6(&self, ut: u16) -> i32 {
        self.b5(ut).wrapping_sub(4000)
    }

    /// `(b6 * b6) >> 12`, used twice.
    pub open spec fn b6_squared(b6: i32) -> i32 {
        b6.wrapping_mul(b6) >> 12u32
    }

    /// `b3 = (((ac1 * 4 + x3) << oss) + 2) >> 2`, where
    /// `x3 = ((b2 * b6²/4096) >> 11) + ((ac2 * b6) >> 11)`.
    pub open spec fn b3(&self, b6: i32) -> i32 {
        let x1 = (self.b2 as i32).wrapping_mul(Self::b6_squared(b6)) >> 11u32;
        let x2 = (self.ac2 as i32).wrapping_mul(b6) >> 11u32;
        let x3 = x1.wrapping_add(x2);
        ((self.ac1 * 4) as i32).wrapping_add(x3).wrapping_shl(self.oversampling as u32).wrapping_add(
            2,
        ) >> 2u32
    }

    /// `b4 = (ac4 * (x3 + 32768)) >> 15` on unsigned 32-bit values, where
    /// `x3 = (((ac3 * b6) >> 13) + ((b1 * b6²/4096) >> 16) + 2) >> 2`.
    pub open spec fn b4(&self, b6: i32) -> u32 {
        let x1 = (self.ac3 as i32).wrapping_mul(b6) >> 13u32;
        let x2 = (self.b1 as i32).wrapping_mul(Self::b6_squared(b6)) >> 16u32;
        let x3 = x1.wrapping_add(x2).wrapping_add(2) >> 2u32;
        (self.ac4 as u32).wrapping_mul(x3.wrapping_add(32768) as u32) >> 15u32
    }

    /// `b7 = (up - b3) * (50000 >> oss)`, read as an unsigned 32-bit value.
    pub open spec fn b7(&self, b3: i32, up: u32) -> u32 {
        ((up as i32).wrapping_sub(b3).wrapping_mul(50000i32 >> self.oversampling as u32)) as u32
    }

    /// The uncorrected pressure: `b7 * 2 / b4` where `b7 * 2` fits in 32
    /// bits, else `b7 / b4 * 2`; read as a signed value.
    pub open spec fn uncorrected_pressure(b7: u32, b4: u32) -> i32 {
        (if b7 < 0x8000_0000u32 {
            (b7 * 2) as u32 / b4
        } else {
            (b7 / b4).wrapping_mul(2)
        }) as i32
    }

    /// The final correction of the pressure `p`:
    /// `p + (((p >> 8)² * 3038 >> 16) + (-7357 * p >> 16) + 3791) / 16`.
    pub open spec fn corrected_pressure(p: i32) -> i32 {
        let x1 = (p >> 8u32).wrapping_mul(p >> 8u32).wrapping_mul(3038) >> 16u32;
        let x2 = (-7357i32).wrapping_mul(p) >> 16u32;
        p.wrapping_add(div_toward_zero(x1.wrapping_add(x2).wrapping_add(3791) as int, 16) as i32)
    }

    /// The compensated pressure in pascals, where neither divisor is zero.
    pub open spec fn real_pressure(&self, ut: u16, up: u32) -> i32 {
        let b6 = self.b6(ut);
        let b7 = self.b7(self.b3(b6), up);
        Self::corrected_pressure(Self::uncorrected_pressure(b7, self.b4(b6)))
    }

    /// The outcome of compensating a raw temperature.
    pub open spec fn temp_outcome(&self, ut: u16) -> Result<i32, ArithmeticError> {
        if self.temp_divisor(ut) == 0 {
            Err(ArithmeticError::ZeroTemperatureDivisor)
        } else {
            Ok(self.real_temp(ut))
        }
    }

    /// The outcome of compensating a raw pressure with its raw temperature.
    pub open spec fn pressure_outcome(&self, ut: u16, up: u32) -> Result<i32, ArithmeticError> {
        if self.temp_divisor(ut) == 0 {
            Err(ArithmeticError::ZeroTemperatureDivisor)
        } else if self.b4(self.b6(ut)) == 0 {
            Err(ArithmeticError::ZeroPressureDivisor)
        } else {
            Ok(self.real_pressure(ut, up))
        }
    }

    /// Computes `b5`, the temperature term shared by both compensations.
    fn calculate_b5(&self, uncompensated_temp: u16) -> (r: Result<i32, ArithmeticError>)
        ensures
            self.temp_divisor(uncompensated_temp) == 0 ==> r == Err::<i32, ArithmeticError>(
                ArithmeticError::ZeroTemperatureDivisor,
            ),
            self.temp_divisor(uncompensated_temp) != 0 ==> r == Ok::<i32, ArithmeticError>(
                self.b5(uncompensated_temp),
            ),
    {
        let diff: i32 = uncompensated_temp as i32 - self.ac6 as i32;
        let product: i32 = diff.wrapping_mul(self.ac5 as i32);
        let x1: i32 = product >> 15u32;
        proof {
            assert(-65536 <= x1 < 65536) by (bit_vector)
                requires
                    x1 == product >> 15u32,
            ;
        }
        let divisor: i32 = x1 + self.md as i32;
        let numerator: i32 = self.mc as i32 * 2048;
        match numerator.checked_div(divisor) {
            None => Err(ArithmeticError::ZeroTemperatureDivisor),
            Some(x2) => {
                proof {
                    let n = abs(numerator as int);
                    let d = abs(divisor as int);
                    assert(n / d <= n) by (nonlinear_arith)
                        requires
                            0 <= n,
                            1 <= d,
                    ;
                }
                Ok(x1 + x2)
            },
        }
    }

    /// Compensates a raw temperature reading: tenths of a degree Celsius.
    pub fn calculate_real_temp(&self, uncompensated_temp: u16) -> (r: Result<i32, ArithmeticError>)
        ensures
            r == self.temp_outcome(uncompensated_temp),
    {
        let b5 = self.calculate_b5(uncompensated_temp)?;
        Ok(b5.wrapping_add(8) >> 4u32)
    }

    /// Computes `b3` from `b6`.
    fn calculate_b3(&self, b6: i32) -> (r: i32)
        requires
            self.valid(),
        ensures
            r == self.b3(b6),
    {
        let b6_squared: i32 = b6.wrapping_mul(b6) >> 12u32;
        let x1: i32 = (self.b2 as i32).wrapping_mul(b6_squared) >> 11u32;
        let x2: i32 = (self.ac2 as i32).wrapping_mul(b6) >> 11u32;
        let x3: i32 = x1.wrapping_add(x2);
        (self.ac1 as i32 * 4).wrapping_add(x3).wrapping_shl(self.oversampling as u32).wrapping_add(
            2,
        ) >> 2u32
    }

    /// Computes `b4` from `b6`.
    fn calculate_b4(&self, b6: i32) -> (r: u32)
        ensures
            r == self.b4(b6),
    {
        let b6_squared: i32 = b6.wrapping_mul(b6) >> 12u32;
        let x1: i32 = (self.ac3 as i32).wrapping_mul(b6) >> 13u32;
        let x2: i32 = (self.b1 as i32).wrapping_mul(b6_squared) >> 16u32;
        let x3: i32 = x1.wrapping_add(x2).wrapping_add(2) >> 2u32;
        let x3_unsigned = #[verifier::truncate] (x3.wrapping_add(32768) as u32);
        (self.ac4 as u32).wrapping_mul(x3_unsigned) >> 15u32
    }

    /// Computes `b7` from `b3` and the raw pressure.
    fn calculate_b7(&self, b3: i32, uncompensated_pressure: u32) -> (r: u32)
        requires
            self.valid(),
        ensures
            r == self.b7(b3, uncompensated_pressure),
    {
        let up = #[verifier::truncate] (uncompensated_pressure as i32);
        let scaled: i32 = up.wrapping_sub(b3).wrapping_mul(50000i32 >> self.oversampling as u32);
        #[verifier::truncate] (scaled as u32)
    }

    /// Divides `b7` by `b4` without leaving 32 unsigned bits.
    fn divide_pressure(b7: u32, b4: u32) -> (r: i32)
        requires
            b4 != 0,
        ensures
            r == Self::uncorrected_pressure(b7, b4),
    {
        let quotient: u32 = if b7 < 0x8000_0000u32 {
            (b7 * 2) / b4
        } else {
            (b7 / b4).wrapping_mul(2)
        };
        #[verifier::truncate] (quotient as i32)
    }

    /// Applies the final second-order correction to the pressure.
    fn correct_pressure(p: i32) -> (r: i32)
        ensures
            r == Self::corrected_pressure(p),
    {
        let x1: i32 = (p >> 8u32).wrapping_mul(p >> 8u32).wrapping_mul(3038) >> 16u32;
        let x2: i32 = (-7357i32).wrapping_mul(p) >> 16u32;
        p.wrapping_add(x1.wrapping_add(x2).wrapping_add(3791) / 16)
    }

    /// Compensates a raw pressure reading, taken with this parameter set's
    /// oversampling, using the raw temperature read just before it: pascals.
    pub fn calcuate_real_pressure(&self, uncompensated_temp: u16, uncompensated_pressure: u32)
        -> (r: Result<i32, ArithmeticError>)
        requires
            self.valid(),
        ensures
            r == self.pressure_outcome(uncompensated_temp, uncompensated_pressure),
    {
        let b5 = self.calculate_b5(uncompensated_temp)?;
        let b6: i32 = b5.wrapping_sub(4000);
        let b3 = self.calculate_b3(b6);
        let b4 = self.calculate_b4(b6);
        if b4 == 0 {
            return Err(ArithmeticError::ZeroPressureDivisor);
        }
        let b7 = self.calculate_b7(b3, uncompensated_pressure);
        let p = Self::divide_pressure(b7, b4);
        Ok(Self::correct_pressure(p))
    }
}

/// The compensated temperature is a function of the raw temperature and of
/// the four temperature coefficients alone: two parameter sets that share
/// `ac5`, `ac6`, `mc` and `md` give the same outcome, whatever their
/// oversampling setting or pressure coefficients, and no raw pressure enters.
pub proof fn lemma_temperature_ignores_pressure_settings(
    a: Bmp085Parameters,
    b: Bmp085Parameters,
    ut: u16,
)
    requires
        a.ac5 == b.ac5,
        a.ac6 == b.ac6,
        a.mc == b.mc,
        a.md == b.md,
    ensures
        a.temp_outcome(ut) == b.temp_outcome(ut),
        a.temp_divisor(ut) == b.temp_divisor(ut),
        a.temp_divisor(ut) != 0 ==> a.b5(ut) == b.b5(ut),
{
}

/// A zero divisor in the temperature step is reported as an arithmetic
/// error by both compensations, never turned into a value.
pub proof fn lemma_zero_divisor_is_an_error(params: Bmp085Parameters, ut: u16, up: u32)
    requires
        params.temp_divisor(ut) == 0,
    ensures
        params.temp_outcome(ut) == Err::<i32, ArithmeticError>(
            ArithmeticError::ZeroTemperatureDivisor,
        ),
        params.pressure_outcome(ut, up) == Err::<i32, ArithmeticError>(
            ArithmeticError::ZeroTemperatureDivisor,
        ),
{
}

/// A raw temperature equal to `ac6` makes `x1` zero, so with `md == 0` the
/// temperature divisor `x1 + md` is zero, whatever `ac5` is.
pub proof fn lemma_divisor_vanishes_at_ac6(params: Bmp085Parameters, ut: u16)
    requires
        ut == params.ac6,
        params.md == 0,
    ensures
        params.temp_divisor(ut) == 0,
{
    let zero: i32 = 0;
    let x1 = zero.wrapping_mul(params.ac5 as i32);
    assert(x1 == 0);
    assert(x1 >> 15u32 == 0) by (bit_vector)
        requires
            x1 == 0,
    ;
}

} // verus!
