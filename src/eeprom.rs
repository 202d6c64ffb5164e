//! Decoding of the calibration memory shared by the MLX90641 and the MLX90642.
//!
//! The memory is read as 832 big-endian words starting at address `0x2400`. Every word is
//! protected by the code of [`crate::hamming`]; the coefficients are sliced from the 11-bit
//! payloads by this table (word offsets from `0x2400`, `s11` a signed 11-bit field):
//!
//! | words          | field                                                              |
//! |----------------|--------------------------------------------------------------------|
//! | 16             | offset scale exponent, bits 5 to 10                                |
//! | 17, 18         | offset reference, `32 * w17 + w18` as a signed 16-bit value        |
//! | 21             | `k_ta` average, s11                                                |
//! | 22             | `k_ta` scales: bits 0 to 4 the delta exponent, bits 5 to 10 the    |
//! |                | divisor exponent                                                   |
//! | 23, 24         | `k_v` average (s11) and scales, laid out as words 21 and 22        |
//! | 25, 26         | sensitivity reference, and its scales laid out as word 22          |
//! | 34             | `k_s_ta`, s11                                                      |
//! | 35             | emissivity, s11; absent when zero                                  |
//! | 36, 37         | gain, `32 * w36 + w37`                                             |
//! | 38, 39         | `v_dd_25` and `k_v_dd`, each `32 * s11`                            |
//! | 40, 41         | `v_ptat_25`, `32 * w40 + w41`                                      |
//! | 42, 43, 44     | `k_t_ptat` (s11), `k_v_ptat` (s11), `alpha_ptat`                   |
//! | 45, 46         | compensation pixel sensitivity (s11) and its scale exponent        |
//! | 47, 48         | compensation pixel offset, `32 * w47 + w48` as a signed 16-bit value |
//! | 49, 50         | compensation pixel `k_ta` and `k_v`: bits 0 to 5 signed, bits 6 to |
//! |                | 10 the scale exponent                                              |
//! | 51             | temperature gradient, bits 0 to 8 signed, absent when zero;        |
//! |                | calibration resolution, bits 9 and 10                              |
//! | 52             | `k_s_to` scale exponent                                            |
//! | 53-57, 59, 61, 63 | `k_s_to` of the eight temperature bands, s11                    |
//! | 58, 60, 62     | the three upper corner temperatures                                |
//! | 64 + i         | offset delta of pixel `i` in subpage 0, s11                        |
//! | 256 + i        | sensitivity (alpha) delta of pixel `i`, unsigned                   |
//! | 448 + i        | `k_ta` delta of pixel `i` in bits 5 to 10, `k_v` delta in bits 0   |
//! |                | to 4, signed                                                       |
//! | 640 + i        | offset delta of pixel `i` in subpage 1, s11                        |
//!
//! The bands start at -40 °C; the corner temperatures that separate them are -20, 0, 80 and
//! 120 °C and the three stored ones, which must keep increasing.
//!
//! Each per-pixel table is rebuilt from a shared baseline plus a per-pixel delta scaled by a
//! power of two: `value = delta * 2^scale + baseline`. The sensitivity and the `k_ta` and
//! `k_v` tables also carry a divisor exponent, which the conversion to physical units
//! applies. A pixel whose four per-pixel words are all zero has failed. A pixel that has not
//! failed but whose rebuilt sensitivity is not positive is an outlier: the conversion divides
//! by the sensitivity, so it lies outside the range the conversion expects.
use vstd::prelude::*;

use crate::error::LibraryError;
use crate::register::{Resolution, Subpage};
use crate::hamming::{
    decode_word, lemma_clean_word_is_encoded, lemma_payload_fits, lemma_single_flip_corrected,
    syndrome, validate_checksum, DATA_MASK,
};

verus! {

/// Number of 16-bit words in the calibration memory.
pub const EEPROM_WORDS: usize = 832;

/// Length in bytes of a calibration memory dump.
pub const EEPROM_LENGTH: usize = 1664;

/// Address of the first calibration memory word.
pub const EEPROM_BASE: u16 = 0x2400;

/// Number of pixels of the sensor.
pub const NUM_PIXELS: usize = 192;

/// The `k`-th big-endian word of a memory dump.
pub open spec fn word_at(data: Seq<u8>, k: int) -> u16 {
    ((data[2 * k] as u16) << 8u16) | (data[2 * k + 1] as u16)
}

/// The words of a memory dump of the right length.
pub open spec fn image_words(data: Seq<u8>) -> Seq<u16> {
    Seq::new(EEPROM_WORDS as nat, |k: int| word_at(data, k))
}

/// Every word decodes, possibly after correcting one bit.
pub open spec fn all_words_valid(ws: Seq<u16>) -> bool {
    forall|k: int| 0 <= k < ws.len() ==> (#[trigger] decode_word(ws[k])) is Some
}

/// Word `k` is the first one that does not decode.
pub open spec fn is_first_bad(ws: Seq<u16>, k: int) -> bool {
    &&& 0 <= k < ws.len()
    &&& decode_word(ws[k]) is None
    &&& forall|j: int| 0 <= j < k ==> (#[trigger] decode_word(ws[j])) is Some
}

/// The payload carried by a word (zero for one that does not decode).
pub open spec fn payload_of(w: u16) -> u16 {
    match decode_word(w) {
        Some(d) => d,
        None => 0,
    }
}

/// The payloads carried by a sequence of words.
pub open spec fn payloads(ws: Seq<u16>) -> Seq<u16> {
    Seq::new(ws.len(), |k: int| payload_of(ws[k]))
}

/// Sign extension of an 11-bit field.
pub open spec fn sext11(p: u16) -> int {
    if p > 1023 {
        p - 2048
    } else {
        p as int
    }
}

/// Sign extension of a `bits`-wide field held in `p`.
pub open spec fn sext(p: int, bits: nat) -> int {
    let half = vstd::arithmetic::power2::pow2((bits - 1) as nat) as int;
    if p >= half {
        p - 2 * half
    } else {
        p
    }
}

/// Calibration coefficients as integers, before any scaling to physical units.
pub struct CalibrationModel {
    pub k_v_dd: int,
    pub v_dd_25: int,
    pub resolution: int,
    pub k_v_ptat: int,
    pub k_t_ptat: int,
    pub v_ptat_25: int,
    pub alpha_ptat: int,
    pub gain: int,
    pub k_s_ta: int,
    pub emissivity: Option<int>,
    pub temperature_gradient: Option<int>,
    pub corner_temperatures: Seq<int>,
    pub k_s_to: Seq<int>,
    pub k_s_to_scale: int,
    pub offset_reference: int,
    pub offset_scale: int,
    pub alpha_reference: int,
    pub alpha_delta_scale: int,
    pub alpha_scale: int,
    pub k_ta_average: int,
    pub k_ta_delta_scale: int,
    pub k_ta_scale: int,
    pub k_v_average: int,
    pub k_v_delta_scale: int,
    pub k_v_scale: int,
    pub offset_cp: int,
    pub alpha_cp: int,
    pub alpha_cp_scale: int,
    pub k_ta_cp: int,
    pub k_ta_cp_scale: int,
    pub k_v_cp: int,
    pub k_v_cp_scale: int,
    pub offsets_subpage0: Seq<int>,
    pub offsets_subpage1: Seq<int>,
    pub alpha: Seq<int>,
    pub k_ta: Seq<int>,
    pub k_v: Seq<int>,
    pub failed: Seq<bool>,
    pub outlier: Seq<bool>,
}

/// The stored corner temperatures keep the bands in increasing order.
pub open spec fn corners_increasing(ws: Seq<u16>) -> bool {
    120 < ws[58] && ws[58] < ws[60] && ws[60] < ws[62]
}

/// Exponent that the offset deltas are scaled by.
pub open spec fn offset_scale_of(ws: Seq<u16>) -> u16 {
    ws[16] >> 5u16
}

/// A signed 16-bit value stored as `32 * hi + lo`.
pub open spec fn split_i16(hi: u16, lo: u16) -> int {
    let v = 32 * hi + lo;
    if v > 32767 {
        v - 65536
    } else {
        v
    }
}

/// The reference that every pixel offset is stored relative to.
pub open spec fn offset_reference_of(ws: Seq<u16>) -> int {
    split_i16(ws[17], ws[18])
}

/// A table value rebuilt from its delta, the delta's scale exponent and the baseline.
pub open spec fn rebuilt(delta: int, scale: nat, baseline: int) -> int {
    delta * (vstd::arithmetic::power2::pow2(scale) as int) + baseline
}

/// The delta exponent held in bits 0 to 4 of a scale word.
pub open spec fn delta_scale(w: u16) -> u16 {
    w & 0x1Fu16
}

/// Offset of pixel `i` whose delta is stored at word `base + i`.
pub open spec fn pixel_offset(ws: Seq<u16>, base: int, i: int) -> int {
    rebuilt(sext11(ws[base + i]), offset_scale_of(ws) as nat, offset_reference_of(ws))
}

/// Sensitivity of pixel `i`.
pub open spec fn pixel_alpha(ws: Seq<u16>, i: int) -> int {
    rebuilt(ws[256 + i] as int, delta_scale(ws[26]) as nat, ws[25] as int)
}

/// Ambient dependence of pixel `i`'s offset.
pub open spec fn pixel_k_ta(ws: Seq<u16>, i: int) -> int {
    rebuilt(sext((ws[448 + i] >> 5u16) as int, 6), delta_scale(ws[22]) as nat, sext11(ws[21]))
}

/// Supply dependence of pixel `i`'s offset.
pub open spec fn pixel_k_v(ws: Seq<u16>, i: int) -> int {
    rebuilt(sext((ws[448 + i] & 0x1Fu16) as int, 5), delta_scale(ws[24]) as nat, sext11(ws[23]))
}

/// Pixel `i` carries the reserved pattern of a failed pixel.
pub open spec fn pixel_failed(ws: Seq<u16>, i: int) -> bool {
    ws[64 + i] == 0 && ws[256 + i] == 0 && ws[448 + i] == 0 && ws[640 + i] == 0
}

/// Pixel `i` is usable but has a sensitivity out of the expected range.
pub open spec fn pixel_outlier(ws: Seq<u16>, i: int) -> bool {
    !pixel_failed(ws, i) && pixel_alpha(ws, i) <= 0
}

/// Word offsets of the eight `k_s_to` coefficients.
pub open spec fn k_s_to_word(b: int) -> int {
    if b < 5 {
        53 + b
    } else {
        59 + 2 * (b - 5)
    }
}

/// The coefficients that an image of 832 payloads holds.
pub open spec fn coefficients(ws: Seq<u16>) -> CalibrationModel {
    CalibrationModel {
        k_v_dd: 32 * sext11(ws[39]),
        v_dd_25: 32 * sext11(ws[38]),
        resolution: ((ws[51] >> 9u16) & 3u16) as int,
        k_v_ptat: sext11(ws[43]),
        k_t_ptat: sext11(ws[42]),
        v_ptat_25: 32 * ws[40] + ws[41],
        alpha_ptat: ws[44] as int,
        gain: 32 * ws[36] + ws[37],
        k_s_ta: sext11(ws[34]),
        emissivity: if ws[35] == 0 {
            None
        } else {
            Some(sext11(ws[35]))
        },
        temperature_gradient: if ws[51] & 0x1FFu16 == 0 {
            None
        } else {
            Some(sext((ws[51] & 0x1FFu16) as int, 9))
        },
        corner_temperatures: seq![-20, 0, 80, 120, ws[58] as int, ws[60] as int, ws[62] as int],
        k_s_to: Seq::new(8, |b: int| sext11(ws[k_s_to_word(b)])),
        k_s_to_scale: ws[52] as int,
        offset_reference: offset_reference_of(ws),
        offset_scale: offset_scale_of(ws) as int,
        alpha_reference: ws[25] as int,
        alpha_delta_scale: delta_scale(ws[26]) as int,
        alpha_scale: (ws[26] >> 5u16) as int,
        k_ta_average: sext11(ws[21]),
        k_ta_delta_scale: delta_scale(ws[22]) as int,
        k_ta_scale: (ws[22] >> 5u16) as int,
        k_v_average: sext11(ws[23]),
        k_v_delta_scale: delta_scale(ws[24]) as int,
        k_v_scale: (ws[24] >> 5u16) as int,
        offset_cp: split_i16(ws[47], ws[48]),
        alpha_cp: sext11(ws[45]),
        alpha_cp_scale: ws[46] as int,
        k_ta_cp: sext((ws[49] & 0x3Fu16) as int, 6),
        k_ta_cp_scale: (ws[49] >> 6u16) as int,
        k_v_cp: sext((ws[50] & 0x3Fu16) as int, 6),
        k_v_cp_scale: (ws[50] >> 6u16) as int,
        offsets_subpage0: Seq::new(NUM_PIXELS as nat, |i: int| pixel_offset(ws, 64, i)),
        offsets_subpage1: Seq::new(NUM_PIXELS as nat, |i: int| pixel_offset(ws, 640, i)),
        alpha: Seq::new(NUM_PIXELS as nat, |i: int| pixel_alpha(ws, i)),
        k_ta: Seq::new(NUM_PIXELS as nat, |i: int| pixel_k_ta(ws, i)),
        k_v: Seq::new(NUM_PIXELS as nat, |i: int| pixel_k_v(ws, i)),
        failed: Seq::new(NUM_PIXELS as nat, |i: int| pixel_failed(ws, i)),
        outlier: Seq::new(NUM_PIXELS as nat, |i: int| pixel_outlier(ws, i)),
    }
}

/// What the payloads of a whole image decode to: the coefficients, or the first range
/// violation.
pub open spec fn calibration_model(ws: Seq<u16>) -> Result<CalibrationModel, LibraryError> {
    if !corners_increasing(ws) {
        Err(LibraryError::Configuration("corner temperatures are not increasing"))
    } else {
        Ok(coefficients(ws))
    }
}

/// What the 832 words of an image decode to: the first uncorrectable word, by its address,
/// or else what the payloads decode to.
pub open spec fn decode_words(ws: Seq<u16>) -> Result<CalibrationModel, LibraryError> {
    if all_words_valid(ws) {
        calibration_model(payloads(ws))
    } else {
        let k = choose|k: int| is_first_bad(ws, k);
        Err(LibraryError::Checksum((EEPROM_BASE + k) as u16))
    }
}

/// What a memory dump decodes to.
pub open spec fn decode_image(data: Seq<u8>) -> Result<CalibrationModel, LibraryError> {
    if data.len() != EEPROM_LENGTH {
        Err(LibraryError::InvalidData("calibration memory dump has an unexpected length"))
    } else {
        decode_words(image_words(data))
    }
}

/// Calibration coefficients of an MLX90641-layout memory, decoded and checked.
#[derive(Clone, Debug, PartialEq)]
pub struct Mlx90641Calibration {
    k_v_dd: i32,
    v_dd_25: i32,
    resolution: Resolution,
    k_v_ptat: i16,
    k_t_ptat: i16,
    v_ptat_25: i32,
    alpha_ptat: u16,
    gain: i32,
    k_s_ta: i16,
    emissivity: Option<i16>,
    temperature_gradient: Option<i16>,
    corner_temperatures: Vec<i16>,
    k_s_to: Vec<i16>,
    k_s_to_scale: u16,
    offset_reference: i32,
    offset_scale: u16,
    alpha_reference: u16,
    alpha_delta_scale: u16,
    alpha_scale: u16,
    k_ta_average: i16,
    k_ta_delta_scale: u16,
    k_ta_scale: u16,
    k_v_average: i16,
    k_v_delta_scale: u16,
    k_v_scale: u16,
    offset_cp: i32,
    alpha_cp: i16,
    alpha_cp_scale: u16,
    k_ta_cp: i8,
    k_ta_cp_scale: u16,
    k_v_cp: i8,
    k_v_cp_scale: u16,
    offsets_subpage0: Vec<i128>,
    offsets_subpage1: Vec<i128>,
    alpha: Vec<i64>,
    k_ta: Vec<i64>,
    k_v: Vec<i64>,
    failed: Vec<bool>,
    outlier: Vec<bool>,
}

/// An optional `i16` as an optional integer.
pub open spec fn opt_int(o: Option<i16>) -> Option<int> {
    match o {
        Some(v) => Some(v as int),
        None => None,
    }
}

impl View for Mlx90641Calibration {
    type V = CalibrationModel;

    closed spec fn view(&self) -> CalibrationModel {
        CalibrationModel {
            k_v_dd: self.k_v_dd as int,
            v_dd_25: self.v_dd_25 as int,
            resolution: self.resolution.spec_bits(),
            k_v_ptat: self.k_v_ptat as int,
            k_t_ptat: self.k_t_ptat as int,
            v_ptat_25: self.v_ptat_25 as int,
            alpha_ptat: self.alpha_ptat as int,
            gain: self.gain as int,
            k_s_ta: self.k_s_ta as int,
            emissivity: opt_int(self.emissivity),
            temperature_gradient: opt_int(self.temperature_gradient),
            corner_temperatures: self.corner_temperatures@.map_values(|x: i16| x as int),
            k_s_to: self.k_s_to@.map_values(|x: i16| x as int),
            k_s_to_scale: self.k_s_to_scale as int,
            offset_reference: self.offset_reference as int,
            offset_scale: self.offset_scale as int,
            alpha_reference: self.alpha_reference as int,
            alpha_delta_scale: self.alpha_delta_scale as int,
            alpha_scale: self.alpha_scale as int,
            k_ta_average: self.k_ta_average as int,
            k_ta_delta_scale: self.k_ta_delta_scale as int,
            k_ta_scale: self.k_ta_scale as int,
            k_v_average: self.k_v_average as int,
            k_v_delta_scale: self.k_v_delta_scale as int,
            k_v_scale: self.k_v_scale as int,
            offset_cp: self.offset_cp as int,
            alpha_cp: self.alpha_cp as int,
            alpha_cp_scale: self.alpha_cp_scale as int,
            k_ta_cp: self.k_ta_cp as int,
            k_ta_cp_scale: self.k_ta_cp_scale as int,
            k_v_cp: self.k_v_cp as int,
            k_v_cp_scale: self.k_v_cp_scale as int,
            offsets_subpage0: self.offsets_subpage0@.map_values(|x: i128| x as int),
            offsets_subpage1: self.offsets_subpage1@.map_values(|x: i128| x as int),
            alpha: self.alpha@.map_values(|x: i64| x as int),
            k_ta: self.k_ta@.map_values(|x: i64| x as int),
            k_v: self.k_v@.map_values(|x: i64| x as int),
            failed: self.failed@,
            outlier: self.outlier@,
        }
    }
}

/// The model of a decoding result.
pub open spec fn result_model(r: Result<Mlx90641Calibration, LibraryError>) -> Result<
    CalibrationModel,
    LibraryError,
> {
    match r {
        Ok(c) => Ok(c@),
        Err(e) => Err(e),
    }
}

/// All payloads of a sequence fit in 11 bits.
pub open spec fn payloads_fit(ws: Seq<u16>) -> bool {
    forall|k: int| 0 <= k < ws.len() ==> ws[k] <= DATA_MASK
}

/// Sign extension of an 11-bit payload.
fn sign_extend_11(p: u16) -> (r: i16)
    requires
        p <= DATA_MASK,
    ensures
        r as int == sext11(p),
        -1024 <= r <= 1023,
{
    if p > 1023 {
        (p as i16) - 2048
    } else {
        p as i16
    }
}

/// The signed 16-bit value stored as `32 * hi + lo`.
fn split_word_pair(hi: u16, lo: u16) -> (r: i32)
    requires
        hi <= DATA_MASK,
        lo <= DATA_MASK,
    ensures
        r as int == split_i16(hi, lo),
        -32768 <= r <= 32767,
{
    let v: i32 = 32 * (hi as i32) + (lo as i32);
    if v > 32767 {
        v - 65536
    } else {
        v
    }
}

/// A scale word: the delta exponent of bits 0 to 4 and the divisor exponent of bits 5 to 10.
fn split_scale_word(w: u16) -> (r: (u16, u16))
    requires
        w <= DATA_MASK,
    ensures
        r.0 == delta_scale(w),
        r.0 <= 31,
        r.1 == w >> 5u16,
{
    let d: u16 = w & 0x1Fu16;
    assert(d <= 31) by (bit_vector)
        requires
            d == w & 0x1Fu16,
    ;
    (d, w >> 5u16)
}

/// A compensation pixel word: the signed 6-bit coefficient of bits 0 to 5 and the scale
/// exponent of bits 6 to 10.
fn split_cp_word(w: u16) -> (r: (i8, u16))
    requires
        w <= DATA_MASK,
    ensures
        r.0 as int == sext((w & 0x3Fu16) as int, 6),
        r.1 as int == (w >> 6u16) as int,
{
    let value: u16 = w & 0x3Fu16;
    assert(value <= 63) by (bit_vector)
        requires
            value == w & 0x3Fu16,
    ;
    proof {
        vstd::arithmetic::power2::lemma2_to64();
    }
    let c: i8 = if value >= 32 {
        (value as i8) - 64
    } else {
        value as i8
    };
    (c, w >> 6u16)
}

/// Rebuilds a table value: `delta * 2^scale + baseline`. With a delta exponent of at most
/// 31 the value also fits in an `i64`.
fn rebuild(delta: i32, scale: u16, baseline: i32) -> (r: i128)
    requires
        -2048 <= delta <= 2047,
        scale <= 63,
        -32768 <= baseline <= 32767,
    ensures
        r as int == rebuilt(delta as int, scale as nat, baseline as int),
        scale <= 31 ==> -0x800_0000_0000 <= r <= 0x800_0000_0000,
{
    proof {
        vstd::bits::lemma_u64_pow2_no_overflow(scale as nat);
        vstd::bits::lemma_u64_shl_is_mul(1, scale as u64);
        vstd::arithmetic::power2::lemma2_to64();
        if scale < 31 {
            vstd::arithmetic::power2::lemma_pow2_strictly_increases(scale as nat, 31);
        }
    }
    let m: u64 = 1u64 << scale as u64;
    let ghost p: int = vstd::arithmetic::power2::pow2(scale as nat) as int;
    assert(m as int == p);
    assert(-0x1_0000_0000_0000_0000_0000 <= (delta as int) * p <= 0x1_0000_0000_0000_0000_0000)
        by (nonlinear_arith)
        requires
            -2048 <= delta <= 2047,
            0 <= p <= 0xFFFF_FFFF_FFFF_FFFF,
    ;
    assert(scale <= 31 ==> -0x400_0000_0000 <= (delta as int) * p <= 0x400_0000_0000)
        by (nonlinear_arith)
        requires
            -2048 <= delta <= 2047,
            0 <= p,
            scale <= 31 ==> p <= 0x8000_0000,
    ;
    (delta as i128) * (m as i128) + (baseline as i128)
}

/// Word `k` of a memory dump of the right length.
fn read_word(data: &[u8], k: usize) -> (r: u16)
    requires
        k < EEPROM_WORDS,
        data@.len() == EEPROM_LENGTH,
    ensures
        r == word_at(data@, k as int),
{
    ((data[2 * k] as u16) << 8u16) | (data[2 * k + 1] as u16)
}

impl Mlx90641Calibration {
    /// Decodes the coefficients from the 832 payloads of a memory image.
    pub fn from_payloads(ws: &Vec<u16>) -> (r: Result<Self, LibraryError>)
        requires
            ws@.len() == EEPROM_WORDS,
            payloads_fit(ws@),
        ensures
            result_model(r) == calibration_model(ws@),
    {
        if !(120 < ws[58] && ws[58] < ws[60] && ws[60] < ws[62]) {
            return Err(LibraryError::Configuration("corner temperatures are not increasing"));
        }
        let offset_scale: u16 = ws[16] >> 5u16;
        let w16 = ws[16];
        assert(offset_scale <= 63) by (bit_vector)
            requires
                w16 <= 0x07FF,
                offset_scale == w16 >> 5u16,
        ;
        let (alpha_delta_scale, alpha_scale) = split_scale_word(ws[26]);
        let (k_ta_delta_scale, k_ta_scale) = split_scale_word(ws[22]);
        let (k_v_delta_scale, k_v_scale) = split_scale_word(ws[24]);
        let alpha_reference = ws[25];
        let k_ta_average = sign_extend_11(ws[21]);
        let k_v_average = sign_extend_11(ws[23]);
        let ghost model = coefficients(ws@);
        proof {
            vstd::arithmetic::power2::lemma2_to64();
        }
        let offset_reference = split_word_pair(ws[17], ws[18]);
        let offset_cp = split_word_pair(ws[47], ws[48]);
        let (k_ta_cp, k_ta_cp_scale) = split_cp_word(ws[49]);
        let (k_v_cp, k_v_cp_scale) = split_cp_word(ws[50]);

        let emissivity_word = ws[35];
        let emissivity = if emissivity_word == 0 {
            None
        } else {
            Some(sign_extend_11(emissivity_word))
        };
        let w51 = ws[51];
        let gradient_word: u16 = w51 & 0x1FFu16;
        assert(gradient_word <= 511) by (bit_vector)
            requires
                gradient_word == w51 & 0x1FFu16,
        ;
        let temperature_gradient = if gradient_word == 0 {
            None
        } else if gradient_word >= 256 {
            Some((gradient_word as i16) - 512)
        } else {
            Some(gradient_word as i16)
        };
        let resolution_word: u16 = (w51 >> 9u16) & 3u16;
        assert(resolution_word <= 3) by (bit_vector)
            requires
                resolution_word == (w51 >> 9u16) & 3u16,
        ;

        let corner_temperatures: Vec<i16> = vec![
            -20,
            0,
            80,
            120,
            ws[58] as i16,
            ws[60] as i16,
            ws[62] as i16,
        ];
        let mut k_s_to: Vec<i16> = Vec::new();
        let mut b: usize = 0;
        while b < 8
            invariant
                b <= 8,
                ws@.len() == EEPROM_WORDS,
                payloads_fit(ws@),
                k_s_to@.len() == b,
                forall|j: int| 0 <= j < b ==> k_s_to@[j] as int == sext11(ws@[k_s_to_word(j)]),
            decreases 8 - b,
        {
            let word: usize = if b < 5 {
                53 + b
            } else {
                59 + 2 * (b - 5)
            };
            k_s_to.push(sign_extend_11(ws[word]));
            b += 1;
        }

        let mut offsets_subpage0: Vec<i128> = Vec::new();
        let mut offsets_subpage1: Vec<i128> = Vec::new();
        let mut alpha: Vec<i64> = Vec::new();
        let mut k_ta: Vec<i64> = Vec::new();
        let mut k_v: Vec<i64> = Vec::new();
        let mut failed: Vec<bool> = Vec::new();
        let mut outlier: Vec<bool> = Vec::new();
        let mut i: usize = 0;
        while i < NUM_PIXELS
            invariant
                i <= NUM_PIXELS,
                ws@.len() == EEPROM_WORDS,
                payloads_fit(ws@),
                model == coefficients(ws@),
                offset_scale == offset_scale_of(ws@),
                offset_scale <= 63,
                alpha_delta_scale == delta_scale(ws@[26]),
                k_ta_delta_scale == delta_scale(ws@[22]),
                k_v_delta_scale == delta_scale(ws@[24]),
                alpha_delta_scale <= 31,
                k_ta_delta_scale <= 31,
                k_v_delta_scale <= 31,
                alpha_reference == ws@[25],
                k_ta_average as int == sext11(ws@[21]),
                k_v_average as int == sext11(ws@[23]),
                -1024 <= k_ta_average <= 1023,
                -1024 <= k_v_average <= 1023,
                offset_reference as int == offset_reference_of(ws@),
                -32768 <= offset_reference <= 32767,
                offsets_subpage0@.len() == i,
                offsets_subpage1@.len() == i,
                alpha@.len() == i,
                k_ta@.len() == i,
                k_v@.len() == i,
                failed@.len() == i,
                outlier@.len() == i,
                forall|j: int| 0 <= j < i ==> offsets_subpage0@[j] as int == model.offsets_subpage0[j],
                forall|j: int| 0 <= j < i ==> offsets_subpage1@[j] as int == model.offsets_subpage1[j],
                forall|j: int| 0 <= j < i ==> alpha@[j] as int == model.alpha[j],
                forall|j: int| 0 <= j < i ==> k_ta@[j] as int == model.k_ta[j],
                forall|j: int| 0 <= j < i ==> k_v@[j] as int == model.k_v[j],
                forall|j: int| 0 <= j < i ==> failed@[j] == model.failed[j],
                forall|j: int| 0 <= j < i ==> outlier@[j] == model.outlier[j],
            decreases NUM_PIXELS - i,
        {
            let d0 = sign_extend_11(ws[64 + i]) as i32;
            let d1 = sign_extend_11(ws[640 + i]) as i32;
            offsets_subpage0.push(rebuild(d0, offset_scale, offset_reference));
            offsets_subpage1.push(rebuild(d1, offset_scale, offset_reference));

            let a_word = ws[256 + i];
            let a = rebuild(a_word as i32, alpha_delta_scale, alpha_reference as i32) as i64;
            alpha.push(a);

            let kk = ws[448 + i];
            let ta_bits: u16 = kk >> 5u16;
            let v_bits: u16 = kk & 0x1Fu16;
            assert(ta_bits <= 63 && v_bits <= 31) by (bit_vector)
                requires
                    kk <= 0x07FF,
                    ta_bits == kk >> 5u16,
                    v_bits == kk & 0x1Fu16,
            ;
            let ta: i8 = if ta_bits >= 32 {
                (ta_bits as i8) - 64
            } else {
                ta_bits as i8
            };
            let v: i8 = if v_bits >= 16 {
                (v_bits as i8) - 32
            } else {
                v_bits as i8
            };
            proof {
                vstd::arithmetic::power2::lemma2_to64();
            }
            k_ta.push(rebuild(ta as i32, k_ta_delta_scale, k_ta_average as i32) as i64);
            k_v.push(rebuild(v as i32, k_v_delta_scale, k_v_average as i32) as i64);

            let is_failed = ws[64 + i] == 0 && a_word == 0 && kk == 0 && ws[640 + i] == 0;
            failed.push(is_failed);
            outlier.push(!is_failed && a <= 0);
            i += 1;
        }

        let c = Mlx90641Calibration {
            k_v_dd: 32 * (sign_extend_11(ws[39]) as i32),
            v_dd_25: 32 * (sign_extend_11(ws[38]) as i32),
            resolution: Resolution::from_bits(resolution_word as u8),
            k_v_ptat: sign_extend_11(ws[43]),
            k_t_ptat: sign_extend_11(ws[42]),
            v_ptat_25: 32 * (ws[40] as i32) + (ws[41] as i32),
            alpha_ptat: ws[44],
            gain: 32 * (ws[36] as i32) + (ws[37] as i32),
            k_s_ta: sign_extend_11(ws[34]),
            emissivity,
            temperature_gradient,
            corner_temperatures,
            k_s_to,
            k_s_to_scale: ws[52],
            offset_reference,
            offset_scale,
            alpha_reference,
            alpha_delta_scale,
            alpha_scale,
            k_ta_average,
            k_ta_delta_scale,
            k_ta_scale,
            k_v_average,
            k_v_delta_scale,
            k_v_scale,
            offset_cp,
            alpha_cp: sign_extend_11(ws[45]),
            alpha_cp_scale: ws[46],
            k_ta_cp,
            k_ta_cp_scale,
            k_v_cp,
            k_v_cp_scale,
            offsets_subpage0,
            offsets_subpage1,
            alpha,
            k_ta,
            k_v,
            failed,
            outlier,
        };
        assert(c@.corner_temperatures =~= model.corner_temperatures);
        assert(c@.k_s_to =~= model.k_s_to);
        assert(c@.offsets_subpage0 =~= model.offsets_subpage0);
        assert(c@.offsets_subpage1 =~= model.offsets_subpage1);
        assert(c@.alpha =~= model.alpha);
        assert(c@.k_ta =~= model.k_ta);
        assert(c@.k_v =~= model.k_v);
        assert(c@.failed =~= model.failed);
        assert(c@.outlier =~= model.outlier);
        Ok(c)
    }
}

/// Two words cannot both be the first that does not decode.
pub proof fn lemma_first_bad_unique(ws: Seq<u16>, k1: int, k2: int)
    requires
        is_first_bad(ws, k1),
        is_first_bad(ws, k2),
    ensures
        k1 == k2,
{
    if k1 < k2 {
        assert(decode_word(ws[k1]) is Some);
    } else if k2 < k1 {
        assert(decode_word(ws[k2]) is Some);
    }
}

impl Mlx90641Calibration {
    /// Decodes a calibration memory dump. The length is checked before any word is read;
    /// then every word is checked and corrected, and the first uncorrectable one fails the
    /// whole decode with its address; then the coefficients are sliced from the payloads.
    pub fn from_data(data: &[u8]) -> (r: Result<Self, LibraryError>)
        ensures
            result_model(r) == decode_image(data@),
    {
        if data.len() != EEPROM_LENGTH {
            return Err(
                LibraryError::InvalidData("calibration memory dump has an unexpected length"),
            );
        }
        let ghost words = image_words(data@);
        let mut ws: Vec<u16> = Vec::new();
        let mut k: usize = 0;
        while k < EEPROM_WORDS
            invariant
                k <= EEPROM_WORDS,
                data@.len() == EEPROM_LENGTH,
                words == image_words(data@),
                ws@.len() == k,
                forall|j: int| 0 <= j < k ==> (#[trigger] decode_word(words[j])) is Some,
                forall|j: int| 0 <= j < k ==> ws@[j] == payload_of(words[j]),
                forall|j: int| 0 <= j < k ==> ws@[j] <= DATA_MASK,
            decreases EEPROM_WORDS - k,
        {
            let w = read_word(data, k);
            assert(w == words[k as int]);
            proof {
                lemma_payload_fits(w);
            }
            match validate_checksum(w, EEPROM_BASE + k as u16) {
                Ok(d) => {
                    ws.push(d);
                },
                Err(e) => {
                    proof {
                        assert(is_first_bad(words, k as int));
                        assert(!all_words_valid(words));
                        let c = choose|c: int| is_first_bad(words, c);
                        lemma_first_bad_unique(words, k as int, c);
                    }
                    return Err(e);
                },
            }
            k += 1;
        }
        assert(all_words_valid(words));
        assert(ws@ =~= payloads(words));
        Self::from_payloads(&ws)
    }
}

impl Mlx90641Calibration {
    /// Calibration resolution.
    pub fn resolution(&self) -> (r: Resolution)
        ensures
            r.spec_bits() == self@.resolution,
    {
        self.resolution
    }

    /// Exponent of the power of two that divides every pixel sensitivity.
    pub fn alpha_scale(&self) -> (r: u16)
        ensures
            r as int == self@.alpha_scale,
    {
        self.alpha_scale
    }

    /// Exponent of the power of two that divides every pixel `k_ta`.
    pub fn k_ta_scale(&self) -> (r: u16)
        ensures
            r as int == self@.k_ta_scale,
    {
        self.k_ta_scale
    }

    /// Exponent of the power of two that divides every pixel `k_v`.
    pub fn k_v_scale(&self) -> (r: u16)
        ensures
            r as int == self@.k_v_scale,
    {
        self.k_v_scale
    }

    /// Offset of the compensation pixel; both subpages share it.
    pub fn offset_reference_cp(&self, subpage: Subpage) -> (r: i32)
        ensures
            r as int == self@.offset_cp,
    {
        self.offset_cp
    }

    /// Sensitivity of the compensation pixel, divided by two to the power
    /// [`Self::alpha_cp_scale`]; both subpages share it.
    pub fn alpha_cp(&self, subpage: Subpage) -> (r: i16)
        ensures
            r as int == self@.alpha_cp,
    {
        self.alpha_cp
    }

    /// Scale exponent of the compensation pixel's sensitivity.
    pub fn alpha_cp_scale(&self) -> (r: u16)
        ensures
            r as int == self@.alpha_cp_scale,
    {
        self.alpha_cp_scale
    }

    /// Ambient dependence of the compensation pixel, and its scale exponent.
    pub fn k_ta_cp(&self, subpage: Subpage) -> (r: (i8, u16))
        ensures
            r.0 as int == self@.k_ta_cp,
            r.1 as int == self@.k_ta_cp_scale,
    {
        (self.k_ta_cp, self.k_ta_cp_scale)
    }

    /// Supply dependence of the compensation pixel, and its scale exponent.
    pub fn k_v_cp(&self, subpage: Subpage) -> (r: (i8, u16))
        ensures
            r.0 as int == self@.k_v_cp,
            r.1 as int == self@.k_v_cp_scale,
    {
        (self.k_v_cp, self.k_v_cp_scale)
    }

    /// Offset of each pixel in a subpage.
    pub fn offset_reference_pixels(&self, subpage: Subpage) -> (r: &[i128])
        ensures
            r@.map_values(|x: i128| x as int) == if subpage == Subpage::Zero {
                self@.offsets_subpage0
            } else {
                self@.offsets_subpage1
            },
    {
        match subpage {
            Subpage::Zero => self.offsets_subpage0.as_slice(),
            Subpage::One => self.offsets_subpage1.as_slice(),
        }
    }

    /// Supply voltage sensitivity.
    pub fn k_v_dd(&self) -> (r: i32)
        ensures
            r as int == self@.k_v_dd,
    {
        self.k_v_dd
    }

    /// Supply voltage at 25 °C.
    pub fn v_dd_25(&self) -> (r: i32)
        ensures
            r as int == self@.v_dd_25,
    {
        self.v_dd_25
    }

    /// Supply dependence of the PTAT voltage, in units of 1/4096.
    pub fn k_v_ptat(&self) -> (r: i16)
        ensures
            r as int == self@.k_v_ptat,
    {
        self.k_v_ptat
    }

    /// Temperature slope of the PTAT voltage, in units of 1/8.
    pub fn k_t_ptat(&self) -> (r: i16)
        ensures
            r as int == self@.k_t_ptat,
    {
        self.k_t_ptat
    }

    /// PTAT voltage at 25 °C.
    pub fn v_ptat_25(&self) -> (r: i32)
        ensures
            r as int == self@.v_ptat_25,
    {
        self.v_ptat_25
    }

    /// PTAT scaling factor, in units of 1/128.
    pub fn alpha_ptat(&self) -> (r: u16)
        ensures
            r as int == self@.alpha_ptat,
    {
        self.alpha_ptat
    }

    /// Gain reference.
    pub fn gain(&self) -> (r: i32)
        ensures
            r as int == self@.gain,
    {
        self.gain
    }

    /// Ambient dependence of the sensitivity, in units of 1/32768.
    pub fn k_s_ta(&self) -> (r: i16)
        ensures
            r as int == self@.k_s_ta,
    {
        self.k_s_ta
    }

    /// Exponent of the power of two that divides every `k_s_to`.
    pub fn k_s_to_scale(&self) -> (r: u16)
        ensures
            r as int == self@.k_s_to_scale,
    {
        self.k_s_to_scale
    }

    /// The reference that every pixel offset is stored relative to.
    pub fn offset_reference(&self) -> (r: i32)
        ensures
            r as int == self@.offset_reference,
    {
        self.offset_reference
    }

    /// Emissivity, in units of 1/2048, where the memory holds one.
    pub fn emissivity(&self) -> (r: Option<i16>)
        ensures
            opt_int(r) == self@.emissivity,
    {
        self.emissivity
    }

    /// Temperature gradient coefficient, in units of 1/64, where the memory holds one.
    pub fn temperature_gradient(&self) -> (r: Option<i16>)
        ensures
            opt_int(r) == self@.temperature_gradient,
    {
        self.temperature_gradient
    }

    /// The corner temperatures that separate the temperature bands, in °C.
    pub fn corner_temperatures(&self) -> (r: &[i16])
        ensures
            r@.map_values(|x: i16| x as int) == self@.corner_temperatures,
    {
        self.corner_temperatures.as_slice()
    }

    /// Sensitivity slope of each temperature band.
    pub fn k_s_to(&self) -> (r: &[i16])
        ensures
            r@.map_values(|x: i16| x as int) == self@.k_s_to,
    {
        self.k_s_to.as_slice()
    }

    /// Sensitivity of each pixel.
    pub fn alpha_pixels(&self) -> (r: &[i64])
        ensures
            r@.map_values(|x: i64| x as int) == self@.alpha,
    {
        self.alpha.as_slice()
    }

    /// Ambient dependence of each pixel's offset.
    pub fn k_ta_pixels(&self) -> (r: &[i64])
        ensures
            r@.map_values(|x: i64| x as int) == self@.k_ta,
    {
        self.k_ta.as_slice()
    }

    /// Supply dependence of each pixel's offset.
    pub fn k_v_pixels(&self) -> (r: &[i64])
        ensures
            r@.map_values(|x: i64| x as int) == self@.k_v,
    {
        self.k_v.as_slice()
    }

    /// Which pixels have failed: their values are never computed.
    pub fn failed_pixels(&self) -> (r: &[bool])
        ensures
            r@ == self@.failed,
    {
        self.failed.as_slice()
    }

    /// Which pixels are outliers: their values are computed but should be treated with care.
    pub fn outlier_pixels(&self) -> (r: &[bool])
        ensures
            r@ == self@.outlier,
    {
        self.outlier.as_slice()
    }
}

/// Every word of a dump is stored exactly as encoded, with no bit flipped.
pub open spec fn all_words_clean(data: Seq<u8>) -> bool {
    forall|k: int| 0 <= k < EEPROM_WORDS ==> #[trigger] syndrome(word_at(data, k)) == 0
}

/// Decoding depends on the dump only through its length and what its words decode to.
pub proof fn lemma_same_payloads_same_decode(a: Seq<u8>, b: Seq<u8>)
    requires
        a.len() == EEPROM_LENGTH,
        b.len() == EEPROM_LENGTH,
        forall|k: int|
            0 <= k < EEPROM_WORDS ==> #[trigger] decode_word(word_at(a, k)) == decode_word(
                word_at(b, k),
            ),
        all_words_valid(image_words(a)),
    ensures
        decode_image(a) == decode_image(b),
{
    let wa = image_words(a);
    let wb = image_words(b);
    assert forall|k: int| 0 <= k < wb.len() implies (#[trigger] decode_word(wb[k])) is Some by {
        assert(decode_word(wa[k]) is Some);
    }
    assert(payloads(wa) =~= payloads(wb));
}

/// Flipping any one bit of any one word of a dump whose words are all stored exactly
/// leaves the decoded calibration unchanged.
pub proof fn lemma_single_bit_flip_is_corrected(data: Seq<u8>, flipped: Seq<u8>, k: int, i: u16)
    requires
        data.len() == EEPROM_LENGTH,
        flipped.len() == EEPROM_LENGTH,
        all_words_clean(data),
        0 <= k < EEPROM_WORDS,
        i < 16,
        word_at(flipped, k) == word_at(data, k) ^ (1u16 << i),
        forall|j: int|
            0 <= j < EEPROM_WORDS && j != k ==> #[trigger] word_at(flipped, j) == word_at(data, j),
    ensures
        decode_image(flipped) == decode_image(data),
{
    assert forall|j: int| 0 <= j < EEPROM_WORDS implies #[trigger] decode_word(word_at(data, j))
        == decode_word(word_at(flipped, j)) && decode_word(word_at(data, j)) is Some by {
        let w = word_at(data, j);
        assert(syndrome(w) == 0);
        lemma_clean_word_is_encoded(w);
        if j == k {
            lemma_single_flip_corrected(w & DATA_MASK, i);
        }
    }
    let wa = image_words(data);
    assert forall|j: int| 0 <= j < wa.len() implies (#[trigger] decode_word(wa[j])) is Some by {
        assert(decode_word(word_at(data, j)) is Some);
    }
    lemma_same_payloads_same_decode(data, flipped);
}

/// Flipping two distinct bits of one word of a dump whose words are all stored exactly
/// makes decoding fail with a checksum error.
pub proof fn lemma_double_bit_flip_is_detected(
    data: Seq<u8>,
    flipped: Seq<u8>,
    k: int,
    i: u16,
    j: u16,
)
    requires
        data.len() == EEPROM_LENGTH,
        flipped.len() == EEPROM_LENGTH,
        all_words_clean(data),
        0 <= k < EEPROM_WORDS,
        i < 16,
        j < 16,
        i != j,
        word_at(flipped, k) == word_at(data, k) ^ (1u16 << i) ^ (1u16 << j),
    ensures
        decode_image(flipped) matches Err(LibraryError::Checksum(_)),
{
    let w = word_at(data, k);
    assert(syndrome(w) == 0);
    lemma_clean_word_is_encoded(w);
    crate::hamming::lemma_double_flip_detected(w & DATA_MASK, i, j);
    let wf = image_words(flipped);
    assert(decode_word(wf[k]) is None);
    assert(!all_words_valid(wf));
}

/// A dump whose words all decode, and whose stored corner temperatures increase, decodes
/// successfully, to the coefficients that its payloads hold.
pub proof fn lemma_valid_image_decodes(data: Seq<u8>)
    requires
        data.len() == EEPROM_LENGTH,
        forall|k: int| 0 <= k < EEPROM_WORDS ==> (#[trigger] decode_word(word_at(data, k))) is Some,
        corners_increasing(payloads(image_words(data))),
    ensures
        decode_image(data) is Ok,
        decode_image(data) == Ok::<CalibrationModel, LibraryError>(
            coefficients(payloads(image_words(data))),
        ),
{
    let ws = image_words(data);
    assert forall|k: int| 0 <= k < ws.len() implies (#[trigger] decode_word(ws[k])) is Some by {
        assert(decode_word(word_at(data, k)) is Some);
    }
}

} // verus!
