//! The factory calibration of the pressure sensor: its coefficients, where
//! they stand on the chip, and the read-out that collects them.
use vstd::prelude::*;

use crate::measurement::DEFAULT_OVERSAMPLING;

verus! {

/// How many 16-bit calibration coefficients the chip holds.
pub const CALIBRATION_WORDS: usize = 11;

/// The register of the first calibration coefficient; each one after it
/// stands two registers further.
pub const FIRST_CALIBRATION_REGISTER: u8 = 0xAA;

/// The 16-bit word made of two bytes, the most significant one first.
pub open spec fn word_of(high: u8, low: u8) -> int {
    high * 0x100 + low
}

/// The two's-complement reading of a 16-bit word.
pub open spec fn signed_of(w: u16) -> int {
    if w < 0x8000 {
        w as int
    } else {
        w - 0x1_0000
    }
}

/// The word made of two bytes read in turn, the most significant first.
pub fn word_msb_first(first: u8, second: u8) -> (r: u16)
    ensures
        r == word_of(first, second),
{
    (first as u16) * 0x100 + second as u16
}

/// The word made of two bytes read in turn, the least significant first.
pub fn word_lsb_first(first: u8, second: u8) -> (r: u16)
    ensures
        r == word_of(second, first),
{
    (second as u16) * 0x100 + first as u16
}

/// Reads a 16-bit word as a two's-complement signed value.
pub fn signed_word(w: u16) -> (r: i16)
    ensures
        r == signed_of(w),
{
    if w < 0x8000 {
        w as i16
    } else {
        (w as i32 - 0x1_0000) as i16
    }
}

/// The register that holds the calibration coefficient at `index`, in the
/// order `ac1, ac2, ac3, ac4, ac5, ac6, b1, b2, mb, mc, md`.
pub fn calibration_register(index: usize) -> (r: u8)
    requires
        index < CALIBRATION_WORDS,
    ensures
        r == FIRST_CALIBRATION_REGISTER + 2 * index,
{
    FIRST_CALIBRATION_REGISTER + 2 * index as u8
}

/// Factory calibration coefficients of the pressure sensor, and the
/// oversampling setting used for pressure measurements.
#[derive(Debug, Clone, Copy, PartialEq, Eq)]
pub struct Bmp085Parameters {
    /// Oversampling setting, between 0 and 3.
    pub oversampling: u8,
    pub ac1: i16,
    pub ac2: i16,
    pub ac3: i16,
    pub ac4: u16,
    pub ac5: u16,
    pub ac6: u16,
    pub b1: i16,
    pub b2: i16,
    pub mb: i16,
    pub mc: i16,
    pub md: i16,
}

impl Bmp085Parameters {
    /// The oversampling setting is one the chip knows.
    pub open spec fn valid(&self) -> bool {
        self.oversampling <= 3
    }

    /// The worked example of the sensor's datasheet, with oversampling 0.
    pub fn init_as_datasheet() -> (r: Bmp085Parameters)
        ensures
            r == (Bmp085Parameters {
                oversampling: 0,
                ac1: 408,
                ac2: -72i16,
                ac3: -14383i16,
                ac4: 32741,
                ac5: 32757,
                ac6: 23153,
                b1: 6190,
                b2: 4,
                mb: -32768i16,
                mc: -8711i16,
                md: 2868,
            }),
            r.valid(),
    {
        Bmp085Parameters {
            oversampling: 0,
            ac1: 408,
            ac2: -72,
            ac3: -14383,
            ac4: 32741,
            ac5: 32757,
            ac6: 23153,
            b1: 6190,
            b2: 4,
            mb: -32768,
            mc: -8711,
            md: 2868,
        }
    }
}

/// The parameter set made of the eleven calibration words in register
/// order, with the default oversampling.
pub open spec fn parameters_from_words(w: Seq<u16>) -> Bmp085Parameters {
    Bmp085Parameters {
        oversampling: DEFAULT_OVERSAMPLING,
        ac1: signed_of(w[0]) as i16,
        ac2: signed_of(w[1]) as i16,
        ac3: signed_of(w[2]) as i16,
        ac4: w[3],
        ac5: w[4],
        ac6: w[5],
        b1: signed_of(w[6]) as i16,
        b2: signed_of(w[7]) as i16,
        mb: signed_of(w[8]) as i16,
        mc: signed_of(w[9]) as i16,
        md: signed_of(w[10]) as i16,
    }
}

/// The read-out of the calibration block at the start of a session: the
/// words read so far, in register order. A parameter set comes out only
/// once all eleven are in; a failed read ends the read-out.
pub struct CalibrationReadout {
    words: Vec<u16>,
}

impl View for CalibrationReadout {
    type V = Seq<u16>;

    closed spec fn view(&self) -> Seq<u16> {
        self.words@
    }
}

impl CalibrationReadout {
    /// A read-out that has read nothing yet.
    pub fn new() -> (r: CalibrationReadout)
        ensures
            r@ == Seq::<u16>::empty(),
    {
        CalibrationReadout { words: Vec::new() }
    }

    /// The register to read next, or `None` once every word is in.
    pub fn next_register(&self) -> (r: Option<u8>)
        ensures
            self@.len() < CALIBRATION_WORDS ==> r == Some(
                (FIRST_CALIBRATION_REGISTER + 2 * self@.len()) as u8,
            ),
            self@.len() >= CALIBRATION_WORDS ==> r is None,
    {
        if self.words.len() < CALIBRATION_WORDS {
            Some(calibration_register(self.words.len()))
        } else {
            None
        }
    }

    /// Takes the outcome of reading the next register. A word joins the
    /// read-out; an error ends it, and is handed back with nothing kept.
    pub fn accept<E>(self, read: Result<u16, E>) -> (r: Result<CalibrationReadout, E>)
        requires
            self@.len() < CALIBRATION_WORDS,
        ensures
            match read {
                Ok(w) => r matches Ok(next) && next@ == self@.push(w),
                Err(e) => r == Err::<CalibrationReadout, E>(e),
            },
    {
        match read {
            Ok(w) => {
                let mut words = self.words;
                words.push(w);
                Ok(CalibrationReadout { words })
            },
            Err(e) => Err(e),
        }
    }

    /// The parameter set, once all eleven words are in.
    pub fn finish(&self) -> (r: Option<Bmp085Parameters>)
        ensures
            self@.len() == CALIBRATION_WORDS ==> r == Some(parameters_from_words(self@)),
            self@.len() != CALIBRATION_WORDS ==> r is None,
            r matches Some(p) ==> p.valid(),
    {
        if self.words.len() != CALIBRATION_WORDS {
            return None;
        }
        let w = &self.words;
        Some(
            Bmp085Parameters {
                oversampling: DEFAULT_OVERSAMPLING,
                ac1: signed_word(w[0]),
                ac2: signed_word(w[1]),
                ac3: signed_word(w[2]),
                ac4: w[3],
                ac5: w[4],
                ac6: w[5],
                b1: signed_word(w[6]),
                b2: signed_word(w[7]),
                mb: signed_word(w[8]),
                mc: signed_word(w[9]),
                md: signed_word(w[10]),
            },
        )
    }
}

} // verus!
