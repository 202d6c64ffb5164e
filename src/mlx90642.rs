//! The MLX90642: the memory layout and geometry of the MLX90641, with a calibration memory
//! that may omit the check bits.
use vstd::prelude::*;

use crate::camera::{
    block_range, pixel_in_subpage, Mlx90641, PixelAddressRange, BLOCKS_PER_SUBPAGE, NUM_PIXELS,
};
use crate::eeprom::{
    all_words_clean, all_words_valid, coefficients, corners_increasing, decode_image, decode_words, image_words,
    lemma_double_bit_flip_is_detected, lemma_single_bit_flip_is_corrected,
    lemma_valid_image_decodes, payloads, word_at,
    CalibrationModel, Mlx90641Calibration, EEPROM_LENGTH, EEPROM_WORDS,
};
use crate::error::LibraryError;
use crate::hamming::{add_checksum, decode_word, encode_word, lemma_clean_word_is_encoded, syndrome, DATA_MASK};
use crate::register::{AccessPattern, Resolution, Subpage};

verus! {

/// The word that replaces `w` when check bits are synthesized: its payload bits, encoded
/// afresh.
pub open spec fn synthesized_word(w: u16) -> u16 {
    encode_word(w & DATA_MASK)
}

/// The words of an image whose check bits were all synthesized.
pub open spec fn synthesized_words(ws: Seq<u16>) -> Seq<u16> {
    Seq::new(ws.len(), |k: int| synthesized_word(ws[k]))
}

/// What an MLX90642 memory dump decodes to: the dump as it stands, and, only where that
/// fails on a checksum, the dump with every word's check bits synthesized from its payload.
pub open spec fn decode_with_fallback(data: Seq<u8>) -> Result<CalibrationModel, LibraryError> {
    match decode_image(data) {
        Err(LibraryError::Checksum(_)) => decode_words(synthesized_words(image_words(data))),
        other => other,
    }
}

/// Calibration of an MLX90642: the MLX90641 calibration, decoded from memory that may omit
/// the check bits.
#[derive(Clone, Debug, PartialEq)]
pub struct Mlx90642Calibration(Mlx90641Calibration);

impl View for Mlx90642Calibration {
    type V = CalibrationModel;

    closed spec fn view(&self) -> CalibrationModel {
        self.0@
    }
}

/// The model of a decoding result.
pub open spec fn result_model(r: Result<Mlx90642Calibration, LibraryError>) -> Result<
    CalibrationModel,
    LibraryError,
> {
    match r {
        Ok(c) => Ok(c@),
        Err(e) => Err(e),
    }
}

impl Mlx90642Calibration {
    /// Parses calibration values from raw memory contents. A dump of the wrong length is
    /// refused before any word is read; a dump that fails on a checksum is decoded once
    /// more with check bits synthesized from every word's payload; any other failure is
    /// returned as it is.
    pub fn from_data(data: &[u8]) -> (r: Result<Self, LibraryError>)
        ensures
            result_model(r) == decode_with_fallback(data@),
            data@.len() != EEPROM_LENGTH ==> r matches Err(LibraryError::InvalidData(_)),
    {
        if data.len() != EEPROM_LENGTH {
            return Err(
                LibraryError::InvalidData("calibration memory dump has an unexpected length"),
            );
        }
        match Self::parse_mlx90641_calibration(data) {
            Ok(c) => Ok(Mlx90642Calibration(c)),
            Err(e) => Err(e),
        }
    }

    fn parse_mlx90641_calibration(data: &[u8]) -> (r: Result<Mlx90641Calibration, LibraryError>)
        ensures
            crate::eeprom::result_model(r) == decode_with_fallback(data@),
    {
        match Mlx90641Calibration::from_data(data) {
            Ok(calibration) => Ok(calibration),
            Err(LibraryError::Checksum(address)) => {
                let corrected = match Self::synthesize_checksums(data) {
                    Ok(v) => v,
                    Err(e) => {
                        return Err(e);
                    },
                };
                let r = Mlx90641Calibration::from_data(corrected.as_slice());
                assert(image_words(corrected@) =~= synthesized_words(image_words(data@)));
                r
            },
            Err(err) => Err(err),
        }
    }

    fn synthesize_checksums(data: &[u8]) -> (r: Result<Vec<u8>, LibraryError>)
        ensures
            data@.len() == EEPROM_LENGTH ==> (r matches Ok(v) && v@.len() == EEPROM_LENGTH
                && forall|k: int|
                0 <= k < EEPROM_WORDS ==> #[trigger] word_at(v@, k) == synthesized_word(
                    word_at(data@, k),
                )),
            data@.len() != EEPROM_LENGTH ==> r matches Err(LibraryError::InvalidData(_)),
    {
        if data.len() != EEPROM_LENGTH {
            return Err(
                LibraryError::InvalidData("calibration memory dump has an unexpected length"),
            );
        }
        let mut corrected: Vec<u8> = Vec::new();
        let mut k: usize = 0;
        while k < EEPROM_WORDS
            invariant
                k <= EEPROM_WORDS,
                data@.len() == EEPROM_LENGTH,
                corrected@.len() == 2 * k,
                forall|j: int|
                    0 <= j < k ==> #[trigger] word_at(corrected@, j) == synthesized_word(
                        word_at(data@, j),
                    ),
            decreases EEPROM_WORDS - k,
        {
            let raw_word: u16 = ((data[2 * k] as u16) << 8u16) | (data[2 * k + 1] as u16);
            let data_bits: u16 = raw_word & DATA_MASK;
            assert(data_bits <= 0x07FF) by (bit_vector)
                requires
                    data_bits == raw_word & 0x07FF,
            ;
            let with_checksum = match add_checksum(data_bits) {
                Ok(w) => w,
                Err(e) => {
                    return Err(e);
                },
            };
            assert((with_checksum >> 8u16) < 256 && (with_checksum & 0xFFu16) < 256) by (bit_vector);
            let hi: u8 = (with_checksum >> 8u16) as u8;
            let lo: u8 = (with_checksum & 0xFFu16) as u8;
            assert((((hi as u16) << 8u16) | (lo as u16)) == with_checksum) by (bit_vector)
                requires
                    hi == (with_checksum >> 8u16) as u8,
                    lo == (with_checksum & 0xFFu16) as u8,
            ;
            let ghost before = corrected@;
            corrected.push(hi);
            corrected.push(lo);
            assert forall|j: int| 0 <= j < k implies #[trigger] word_at(corrected@, j)
                == synthesized_word(word_at(data@, j)) by {
                assert(word_at(before, j) == synthesized_word(word_at(data@, j)));
                assert(corrected@[2 * j] == before[2 * j]);
                assert(corrected@[2 * j + 1] == before[2 * j + 1]);
            }
            assert(word_at(corrected@, k as int) == with_checksum);
            k += 1;
        }
        Ok(corrected)
    }
}

impl Mlx90642Calibration {
    /// Calibration resolution.
    pub fn resolution(&self) -> (r: Resolution)
        ensures
            r.spec_bits() == self@.resolution,
    {
        self.0.resolution()
    }

    /// Exponent of the power of two that divides every pixel sensitivity.
    pub fn alpha_scale(&self) -> (r: u16)
        ensures
            r as int == self@.alpha_scale,
    {
        self.0.alpha_scale()
    }

    /// Exponent of the power of two that divides every pixel `k_ta`.
    pub fn k_ta_scale(&self) -> (r: u16)
        ensures
            r as int == self@.k_ta_scale,
    {
        self.0.k_ta_scale()
    }

    /// Exponent of the power of two that divides every pixel `k_v`.
    pub fn k_v_scale(&self) -> (r: u16)
        ensures
            r as int == self@.k_v_scale,
    {
        self.0.k_v_scale()
    }

    /// Offset of the compensation pixel; both subpages share it.
    pub fn offset_reference_cp(&self, subpage: Subpage) -> (r: i32)
        ensures
            r as int == self@.offset_cp,
    {
        self.0.offset_reference_cp(subpage)
    }

    /// Sensitivity of the compensation pixel, before its scale exponent is applied.
    pub fn alpha_cp(&self, subpage: Subpage) -> (r: i16)
        ensures
            r as int == self@.alpha_cp,
    {
        self.0.alpha_cp(subpage)
    }

    /// Scale exponent of the compensation pixel's sensitivity.
    pub fn alpha_cp_scale(&self) -> (r: u16)
        ensures
            r as int == self@.alpha_cp_scale,
    {
        self.0.alpha_cp_scale()
    }

    /// Ambient dependence of the compensation pixel, and its scale exponent.
    pub fn k_ta_cp(&self, subpage: Subpage) -> (r: (i8, u16))
        ensures
            r.0 as int == self@.k_ta_cp,
            r.1 as int == self@.k_ta_cp_scale,
    {
        self.0.k_ta_cp(subpage)
    }

    /// Supply dependence of the compensation pixel, and its scale exponent.
    pub fn k_v_cp(&self, subpage: Subpage) -> (r: (i8, u16))
        ensures
            r.0 as int == self@.k_v_cp,
            r.1 as int == self@.k_v_cp_scale,
    {
        self.0.k_v_cp(subpage)
    }

    /// Offset of each pixel in a subpage.
    pub fn offset_reference_pixels(&self, subpage: Subpage) -> (r: &[i128])
        ensures
            r@.map_values(|x: i128| x as int) == if subpage == Subpage::Zero {
                self@.offsets_subpage0
            } else {
                self@.offsets_subpage1
            },
    {
        self.0.offset_reference_pixels(subpage)
    }

    /// Supply voltage sensitivity.
    pub fn k_v_dd(&self) -> (r: i32)
        ensures
            r as int == self@.k_v_dd,
    {
        self.0.k_v_dd()
    }

    /// Supply voltage at 25 °C.
    pub fn v_dd_25(&self) -> (r: i32)
        ensures
            r as int == self@.v_dd_25,
    {
        self.0.v_dd_25()
    }

    /// Supply dependence of the PTAT voltage, in units of 1/4096.
    pub fn k_v_ptat(&self) -> (r: i16)
        ensures
            r as int == self@.k_v_ptat,
    {
        self.0.k_v_ptat()
    }

    /// Temperature slope of the PTAT voltage, in units of 1/8.
    pub fn k_t_ptat(&self) -> (r: i16)
        ensures
            r as int == self@.k_t_ptat,
    {
        self.0.k_t_ptat()
    }

    /// PTAT voltage at 25 °C.
    pub fn v_ptat_25(&self) -> (r: i32)
        ensures
            r as int == self@.v_ptat_25,
    {
        self.0.v_ptat_25()
    }

    /// PTAT scaling factor, in units of 1/128.
    pub fn alpha_ptat(&self) -> (r: u16)
        ensures
            r as int == self@.alpha_ptat,
    {
        self.0.alpha_ptat()
    }

    /// Gain reference.
    pub fn gain(&self) -> (r: i32)
        ensures
            r as int == self@.gain,
    {
        self.0.gain()
    }

    /// Ambient dependence of the sensitivity, in units of 1/32768.
    pub fn k_s_ta(&self) -> (r: i16)
        ensures
            r as int == self@.k_s_ta,
    {
        self.0.k_s_ta()
    }

    /// Exponent of the power of two that divides every `k_s_to`.
    pub fn k_s_to_scale(&self) -> (r: u16)
        ensures
            r as int == self@.k_s_to_scale,
    {
        self.0.k_s_to_scale()
    }

    /// The reference that every pixel offset is stored relative to.
    pub fn offset_reference(&self) -> (r: i32)
        ensures
            r as int == self@.offset_reference,
    {
        self.0.offset_reference()
    }

    /// Emissivity, in units of 1/2048, where the memory holds one.
    pub fn emissivity(&self) -> (r: Option<i16>)
        ensures
            crate::eeprom::opt_int(r) == self@.emissivity,
    {
        self.0.emissivity()
    }

    /// Temperature gradient coefficient, in units of 1/64, where the memory holds one.
    pub fn temperature_gradient(&self) -> (r: Option<i16>)
        ensures
            crate::eeprom::opt_int(r) == self@.temperature_gradient,
    {
        self.0.temperature_gradient()
    }

    /// The corner temperatures that separate the temperature bands, in °C.
    pub fn corner_temperatures(&self) -> (r: &[i16])
        ensures
            r@.map_values(|x: i16| x as int) == self@.corner_temperatures,
    {
        self.0.corner_temperatures()
    }

    /// Sensitivity slope of each temperature band.
    pub fn k_s_to(&self) -> (r: &[i16])
        ensures
            r@.map_values(|x: i16| x as int) == self@.k_s_to,
    {
        self.0.k_s_to()
    }

    /// Sensitivity of each pixel.
    pub fn alpha_pixels(&self) -> (r: &[i64])
        ensures
            r@.map_values(|x: i64| x as int) == self@.alpha,
    {
        self.0.alpha_pixels()
    }

    /// Ambient dependence of each pixel's offset.
    pub fn k_ta_pixels(&self) -> (r: &[i64])
        ensures
            r@.map_values(|x: i64| x as int) == self@.k_ta,
    {
        self.0.k_ta_pixels()
    }

    /// Supply dependence of each pixel's offset.
    pub fn k_v_pixels(&self) -> (r: &[i64])
        ensures
            r@.map_values(|x: i64| x as int) == self@.k_v,
    {
        self.0.k_v_pixels()
    }

    /// Which pixels have failed: their values are never computed.
    pub fn failed_pixels(&self) -> (r: &[bool])
        ensures
            r@ == self@.failed,
    {
        self.0.failed_pixels()
    }

    /// Which pixels are outliers: their values are computed but should be treated with care.
    pub fn outlier_pixels(&self) -> (r: &[bool])
        ensures
            r@ == self@.outlier,
    {
        self.0.outlier_pixels()
    }
}

/// Stripping the check bits from a dump whose words are all stored exactly, and decoding
/// the result through the synthesis fallback, gives what the checksummed dump decodes to.
/// The fallback is taken when some stripped word does not decode as it stands.
pub proof fn lemma_stripped_image_decodes_as_checksummed(good: Seq<u8>, stripped: Seq<u8>)
    requires
        good.len() == EEPROM_LENGTH,
        stripped.len() == EEPROM_LENGTH,
        all_words_clean(good),
        forall|k: int|
            0 <= k < EEPROM_WORDS ==> #[trigger] word_at(stripped, k) == word_at(good, k)
                & DATA_MASK,
        !all_words_valid(image_words(stripped)),
    ensures
        decode_with_fallback(stripped) == decode_image(good),
{
    let ws = image_words(stripped);
    assert forall|j: int| 0 <= j < EEPROM_WORDS implies #[trigger] synthesized_words(ws)[j]
        == image_words(good)[j] by {
        let w = word_at(good, j);
        assert(syndrome(w) == 0);
        lemma_clean_word_is_encoded(w);
    }
    assert(synthesized_words(ws) =~= image_words(good));
}

/// A dump whose words all decode, and whose stored corner temperatures increase, decodes
/// successfully as an MLX90642 dump, to the coefficients that its payloads hold.
pub proof fn lemma_valid_image_decodes_with_fallback(data: Seq<u8>)
    requires
        data.len() == EEPROM_LENGTH,
        forall|k: int| 0 <= k < EEPROM_WORDS ==> (#[trigger] decode_word(word_at(data, k))) is Some,
        corners_increasing(payloads(image_words(data))),
    ensures
        decode_with_fallback(data) == Ok::<CalibrationModel, LibraryError>(
            coefficients(payloads(image_words(data))),
        ),
{
    lemma_valid_image_decodes(data);
}

/// On a dump whose words are all stored exactly, flipping one bit of one word leaves what
/// an MLX90642 decodes unchanged.
pub proof fn lemma_single_bit_flip_with_fallback(data: Seq<u8>, flipped: Seq<u8>, k: int, i: u16)
    requires
        data.len() == EEPROM_LENGTH,
        flipped.len() == EEPROM_LENGTH,
        all_words_clean(data),
        0 <= k < EEPROM_WORDS,
        i < 16,
        word_at(flipped, k) == word_at(data, k) ^ (1u16 << i),
        forall|j: int|
            0 <= j < EEPROM_WORDS && j != k ==> #[trigger] word_at(flipped, j) == word_at(data, j),
    ensures
        decode_with_fallback(flipped) == decode_image(data),
{
    lemma_single_bit_flip_is_corrected(data, flipped, k, i);
    let ws = image_words(data);
    assert forall|j: int| 0 <= j < ws.len() implies (#[trigger] decode_word(ws[j])) is Some by {
        let w = word_at(data, j);
        assert(syndrome(w) == 0);
        lemma_clean_word_is_encoded(w);
    }
}

/// On a dump whose words are all stored exactly, flipping two distinct bits of one word is
/// never miscorrected: the direct decode reports a checksum error, so an MLX90642 decodes
/// the dump with synthesized check bits. Where both flipped bits are check bits, that gives
/// what the intact dump decodes to.
pub proof fn lemma_double_bit_flip_with_fallback(
    data: Seq<u8>,
    flipped: Seq<u8>,
    k: int,
    i: u16,
    j: u16,
)
    requires
        data.len() == EEPROM_LENGTH,
        flipped.len() == EEPROM_LENGTH,
        all_words_clean(data),
        0 <= k < EEPROM_WORDS,
        i < 16,
        j < 16,
        i != j,
        word_at(flipped, k) == word_at(data, k) ^ (1u16 << i) ^ (1u16 << j),
        forall|l: int|
            0 <= l < EEPROM_WORDS && l != k ==> #[trigger] word_at(flipped, l) == word_at(data, l),
    ensures
        decode_image(flipped) matches Err(LibraryError::Checksum(_)),
        decode_with_fallback(flipped) == decode_words(synthesized_words(image_words(flipped))),
        i >= 11 && j >= 11 ==> decode_with_fallback(flipped) == decode_image(data),
{
    lemma_double_bit_flip_is_detected(data, flipped, k, i, j);
    if i >= 11 && j >= 11 {
        let wf = image_words(flipped);
        assert forall|l: int| 0 <= l < EEPROM_WORDS implies #[trigger] synthesized_words(wf)[l]
            == image_words(data)[l] by {
            let w = word_at(data, l);
            assert(syndrome(w) == 0);
            lemma_clean_word_is_encoded(w);
            if l == k {
                assert(((w ^ (1u16 << i) ^ (1u16 << j)) & 0x07FF) == w & 0x07FF) by (bit_vector)
                    requires
                        11 <= i < 16,
                        11 <= j < 16,
                ;
            }
        }
        assert(synthesized_words(wf) =~= image_words(data));
    }
}

/// Geometry and register map of the MLX90642: those of the MLX90641, member for member.
#[derive(Clone, Copy, Debug, PartialEq, Eq, Structural)]
pub struct Mlx90642;

impl Mlx90642 {
    /// The RAM runs to read for one subpage, in output-buffer order.
    pub fn pixel_ranges(subpage: Subpage, access_pattern: AccessPattern) -> (r: Vec<
        PixelAddressRange,
    >)
        ensures
            r@ == Seq::new(BLOCKS_PER_SUBPAGE as nat, |b: int| block_range(subpage, b)),
    {
        Mlx90641::pixel_ranges(subpage, access_pattern)
    }

    /// Which pixels a subpage measures, in row-major order.
    pub fn pixels_in_subpage(subpage: Subpage, access_pattern: AccessPattern) -> (r: Vec<bool>)
        ensures
            r@ == Seq::new(NUM_PIXELS as nat, |i: int| pixel_in_subpage(subpage, access_pattern, i)),
    {
        Mlx90641::pixels_in_subpage(subpage, access_pattern)
    }

    /// Whether a complete image needs both subpages under `access_pattern`.
    pub fn image_needs_both_subpages(access_pattern: AccessPattern) -> (r: bool)
        ensures
            r == ((exists|i: int| 0 <= i < NUM_PIXELS && !pixel_in_subpage(Subpage::Zero, access_pattern, i))
                && (exists|i: int| 0 <= i < NUM_PIXELS && !pixel_in_subpage(Subpage::One, access_pattern, i))),
    {
        Mlx90641::image_needs_both_subpages(access_pattern)
    }

    /// RAM address of the compensation pixel of a subpage.
    pub fn compensation_pixel(subpage: Subpage) -> (r: u16)
        ensures
            r == 0x0588 + 0x20 * subpage.spec_index(),
    {
        Mlx90641::compensation_pixel(subpage)
    }

    /// The power of two that compensates an ADC resolution different from the calibrated
    /// one.
    pub fn resolution_correction_exponent(
        calibrated_resolution: Resolution,
        current_resolution: Resolution,
    ) -> (r: i8)
        ensures
            r == calibrated_resolution.spec_bits() - current_resolution.spec_bits(),
    {
        Mlx90641::resolution_correction_exponent(calibrated_resolution, current_resolution)
    }
}

} // verus!
