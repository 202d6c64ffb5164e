use mlx9064x::error::LibraryError;
use mlx9064x::hamming::{add_checksum, validate_checksum};

#[test]
fn encodes_known_payloads() {
    assert_eq!(add_checksum(0), Ok(0));
    assert_eq!(add_checksum(1), Ok(0x9801));
    assert_eq!(add_checksum(0x07FF), Ok(0x07FF | 0x0800 | 0x1000 | 0x2000 | 0x4000 | 0x8000));
}

#[test]
fn refuses_wide_payloads() {
    assert!(matches!(add_checksum(0x0800), Err(LibraryError::InvalidData(_))));
}

#[test]
fn decodes_clean_words() {
    for d in [0u16, 1, 2, 0x155, 0x2AA, 0x7FF] {
        let w = add_checksum(d).unwrap();
        assert_eq!(validate_checksum(w, 0x2400), Ok(d));
    }
}

#[test]
fn corrects_every_single_bit_flip() {
    for d in [0u16, 1, 0x3C5, 0x7FF] {
        let w = add_checksum(d).unwrap();
        for i in 0..16 {
            assert_eq!(validate_checksum(w ^ (1 << i), 0x2400), Ok(d));
        }
    }
}

#[test]
fn detects_every_double_bit_flip() {
    for d in [0u16, 0x123, 0x7FF] {
        let w = add_checksum(d).unwrap();
        for i in 0..16 {
            for j in 0..16 {
                if i != j {
                    assert_eq!(
                        validate_checksum(w ^ (1 << i) ^ (1 << j), 0x2410),
                        Err(LibraryError::Checksum(0x2410))
                    );
                }
            }
        }
    }
}
