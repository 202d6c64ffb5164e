use mlx9064x::eeprom::Mlx90641Calibration;
use mlx9064x::error::LibraryError;
use mlx9064x::hamming::{add_checksum, DATA_MASK};
use mlx9064x::mlx90642::Mlx90642Calibration;
use mlx9064x::register::{Resolution, Subpage};

fn sample_payloads() -> Vec<u16> {
    let mut words: Vec<u16> = (0..832).map(|k| ((k * 37 + 11) % 2048) as u16).collect();
    words[16] = 2 << 5;
    words[17] = 0x10;
    words[18] = 3;
    words[21] = 0x7FE;
    words[22] = (7 << 5) | 2;
    words[23] = 10;
    words[24] = (3 << 5) | 1;
    words[25] = 100;
    words[26] = (12 << 5) | 3;
    words[34] = 0x7F0;
    words[35] = 1946;
    words[36] = 0x20;
    words[37] = 5;
    words[38] = 0x400;
    words[39] = 0x7FF;
    words[40] = 0x300;
    words[41] = 7;
    words[42] = 100;
    words[43] = 0x7FE;
    words[44] = 128;
    words[45] = 0x7FC;
    words[46] = 9;
    words[47] = 0x7FF;
    words[48] = 0x1F;
    words[49] = (4 << 6) | 0x3E;
    words[50] = (5 << 6) | 0x05;
    words[51] = (2 << 9) | 0x1FF;
    words[52] = 3;
    words[58] = 200;
    words[60] = 300;
    words[62] = 400;
    for k in [64 + 5, 256 + 5, 448 + 5, 640 + 5] {
        words[k] = 0;
    }
    words[256 + 6] = 0;
    words[64] = 0x400;
    words[640] = 1;
    words[448] = (0x21 << 5) | 0x11;
    words
}

fn to_bytes(words: &[u16]) -> Vec<u8> {
    words.iter().flat_map(|w| w.to_be_bytes()).collect()
}

fn sample_image() -> Vec<u8> {
    let encoded: Vec<u16> = sample_payloads()
        .iter()
        .map(|&p| add_checksum(p).unwrap())
        .collect();
    to_bytes(&encoded)
}

fn strip(data: &mut [u8]) {
    for chunk in data.chunks_exact_mut(2) {
        let word = u16::from_be_bytes([chunk[0], chunk[1]]);
        let without_checksum = (word & DATA_MASK).to_be_bytes();
        chunk.copy_from_slice(&without_checksum);
    }
}

fn flip(data: &mut [u8], word: usize, bit: u32) {
    let w = u16::from_be_bytes([data[2 * word], data[2 * word + 1]]) ^ (1u16 << bit);
    data[2 * word..2 * word + 2].copy_from_slice(&w.to_be_bytes());
}

#[test]
fn parses_eeprom_with_checksums() {
    let data = sample_image();
    Mlx90642Calibration::from_data(&data).expect("checksum-bearing data should parse");
}

#[test]
fn synthesizes_missing_checksums() {
    let mut data = sample_image();
    for chunk in data.chunks_exact_mut(2) {
        let word = u16::from_be_bytes([chunk[0], chunk[1]]);
        let without_checksum = (word & DATA_MASK).to_be_bytes();
        chunk.copy_from_slice(&without_checksum);
    }

    Mlx90642Calibration::from_data(&data).expect("missing checksums should be synthesized");
}

#[test]
fn rejects_invalid_lengths() {
    let data = [0u8; 4];
    let err = Mlx90642Calibration::from_data(&data).unwrap_err();
    assert!(matches!(err, LibraryError::InvalidData(_)));
}

#[test]
fn invalid_length_rejected_by_checksummed_decoder() {
    assert!(matches!(
        Mlx90641Calibration::from_data(&[0u8; 4]),
        Err(LibraryError::InvalidData(_))
    ));
    assert!(matches!(
        Mlx90641Calibration::from_data(&vec![0u8; 1666]),
        Err(LibraryError::InvalidData(_))
    ));
}

#[test]
fn decoding_is_deterministic() {
    let data = sample_image();
    let a = Mlx90641Calibration::from_data(&data).unwrap();
    let b = Mlx90641Calibration::from_data(&data).unwrap();
    assert_eq!(a, b);
}

#[test]
fn decodes_scalar_fields() {
    let c = Mlx90641Calibration::from_data(&sample_image()).unwrap();
    assert_eq!(c.k_v_dd(), -32);
    assert_eq!(c.v_dd_25(), -1024 * 32);
    assert_eq!(c.gain(), 32 * 0x20 + 5);
    assert_eq!(c.k_s_ta(), 0x7F0 - 2048);
    assert_eq!(c.emissivity(), Some(1946 - 2048));
    assert_eq!(c.v_ptat_25(), 32 * 0x300 + 7);
    assert_eq!(c.k_t_ptat(), 100);
    assert_eq!(c.k_v_ptat(), -2);
    assert_eq!(c.alpha_ptat(), 128);
    assert_eq!(c.resolution(), Resolution::Eighteen);
    assert_eq!(c.temperature_gradient(), Some(-1));
    assert_eq!(c.k_s_to_scale(), 3);
    assert_eq!(c.offset_reference(), 32 * 0x10 + 3);
    assert_eq!(c.corner_temperatures(), &[-20, 0, 80, 120, 200, 300, 400]);
    assert_eq!(c.k_s_to().len(), 8);
    assert_eq!(c.k_s_to().len(), c.corner_temperatures().len() + 1);
}

#[test]
fn decodes_pixel_tables() {
    let c = Mlx90641Calibration::from_data(&sample_image()).unwrap();
    assert_eq!(c.offset_reference_pixels(Subpage::Zero)[0], -1024 * 4 + 515);
    assert_eq!(c.offset_reference_pixels(Subpage::One)[0], 4 + 515);
    assert_eq!(c.k_ta_pixels()[0], (0x21 - 64) * 4 - 2);
    assert_eq!(c.k_v_pixels()[0], (0x11 - 32) * 2 + 10);
    assert_eq!(c.alpha_pixels().len(), 192);
    assert_eq!(c.alpha_pixels()[1], (((257 * 37 + 11) % 2048) * 8 + 100) as i64);
    assert_eq!(c.alpha_scale(), 12);
    assert_eq!(c.k_ta_scale(), 7);
    assert_eq!(c.k_v_scale(), 3);
    assert!(c.failed_pixels()[5]);
    assert!(!c.outlier_pixels()[5]);
    assert!(!c.outlier_pixels()[6]);
    assert_eq!(c.failed_pixels().iter().filter(|f| **f).count(), 1);
    assert_eq!(c.outlier_pixels().iter().filter(|f| **f).count(), 0);
}

#[test]
fn zero_sensitivity_marks_an_outlier() {
    let mut words = sample_payloads();
    words[25] = 0;
    let encoded: Vec<u16> = words.iter().map(|&p| add_checksum(p).unwrap()).collect();
    let c = Mlx90641Calibration::from_data(&to_bytes(&encoded)).unwrap();
    assert!(c.outlier_pixels()[6]);
    assert!(!c.failed_pixels()[6]);
    assert!(!c.outlier_pixels()[5]);
    assert!(c.failed_pixels()[5]);
    assert_eq!(c.outlier_pixels().iter().filter(|f| **f).count(), 1);
}

#[test]
fn single_bit_flip_is_corrected_in_image() {
    let data = sample_image();
    let intact = Mlx90641Calibration::from_data(&data).unwrap();
    for (word, bit) in [(0, 0), (39, 15), (300, 7), (831, 11)] {
        let mut flipped = data.clone();
        flip(&mut flipped, word, bit);
        assert_eq!(Mlx90641Calibration::from_data(&flipped).unwrap(), intact);
    }
}

#[test]
fn double_bit_flip_is_reported() {
    let mut data = sample_image();
    flip(&mut data, 100, 2);
    flip(&mut data, 100, 13);
    assert_eq!(
        Mlx90641Calibration::from_data(&data),
        Err(LibraryError::Checksum(0x2400 + 100))
    );
}

#[test]
fn first_uncorrectable_word_is_named() {
    let mut data = sample_image();
    flip(&mut data, 500, 0);
    flip(&mut data, 500, 1);
    flip(&mut data, 200, 4);
    flip(&mut data, 200, 5);
    assert_eq!(
        Mlx90641Calibration::from_data(&data),
        Err(LibraryError::Checksum(0x2400 + 200))
    );
}

#[test]
fn stripped_image_decodes_as_checksummed() {
    let data = sample_image();
    let direct = Mlx90642Calibration::from_data(&data).unwrap();
    let mut stripped = data.clone();
    strip(&mut stripped);
    assert!(matches!(
        Mlx90641Calibration::from_data(&stripped),
        Err(LibraryError::Checksum(_))
    ));
    assert_eq!(Mlx90642Calibration::from_data(&stripped).unwrap(), direct);
}

#[test]
fn corner_temperatures_must_increase() {
    let mut words = sample_payloads();
    words[60] = 150;
    let encoded: Vec<u16> = words.iter().map(|&p| add_checksum(p).unwrap()).collect();
    let data = to_bytes(&encoded);
    assert!(matches!(
        Mlx90641Calibration::from_data(&data),
        Err(LibraryError::Configuration(_))
    ));
    let mut stripped = data.clone();
    strip(&mut stripped);
    assert!(matches!(
        Mlx90642Calibration::from_data(&stripped),
        Err(LibraryError::Configuration(_))
    ));
}

#[test]
fn largest_offset_scale_is_decoded() {
    let mut words = sample_payloads();
    words[16] = 63 << 5;
    let encoded: Vec<u16> = words.iter().map(|&p| add_checksum(p).unwrap()).collect();
    let c = Mlx90641Calibration::from_data(&to_bytes(&encoded)).unwrap();
    assert_eq!(c.offset_reference_pixels(Subpage::Zero)[0], -1024 * (1i128 << 63) + 515);
}

#[test]
fn check_bit_double_flip_recovers_through_fallback() {
    let data = sample_image();
    let intact = Mlx90642Calibration::from_data(&data).unwrap();
    let mut flipped = data.clone();
    flip(&mut flipped, 40, 12);
    flip(&mut flipped, 40, 14);
    assert!(matches!(
        Mlx90641Calibration::from_data(&flipped),
        Err(LibraryError::Checksum(_))
    ));
    assert_eq!(Mlx90642Calibration::from_data(&flipped).unwrap(), intact);
}

#[test]
fn absent_emissivity_and_gradient() {
    let mut words = sample_payloads();
    words[35] = 0;
    words[51] = 1 << 9;
    let encoded: Vec<u16> = words.iter().map(|&p| add_checksum(p).unwrap()).collect();
    let c = Mlx90642Calibration::from_data(&to_bytes(&encoded)).unwrap();
    assert_eq!(c.emissivity(), None);
    assert_eq!(c.temperature_gradient(), None);
    assert_eq!(c.resolution(), Resolution::Seventeen);
}

#[test]
fn decodes_compensation_pixel_fields() {
    let c = Mlx90642Calibration::from_data(&sample_image()).unwrap();
    assert_eq!(c.offset_reference_cp(Subpage::Zero), 32 * 0x7FF + 0x1F - 65536);
    assert_eq!(c.offset_reference_cp(Subpage::One), -1);
    assert_eq!(c.alpha_cp(Subpage::Zero), -4);
    assert_eq!(c.alpha_cp_scale(), 9);
    assert_eq!(c.k_ta_cp(Subpage::One), (-2, 4));
    assert_eq!(c.k_v_cp(Subpage::Zero), (5, 5));
}
