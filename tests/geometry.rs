use mlx9064x::camera::{Mlx90641, PixelAddressRange};
use mlx9064x::mlx90642::Mlx90642;
use mlx9064x::register::{AccessPattern, Resolution, Subpage};

#[test]
fn pixel_ranges_interleave_blocks() {
    let zero = Mlx90642::pixel_ranges(Subpage::Zero, AccessPattern::Interleave);
    let one = Mlx90642::pixel_ranges(Subpage::One, AccessPattern::Chess);
    assert_eq!(zero.len(), 6);
    assert_eq!(
        zero[0],
        PixelAddressRange { start_address: 0x0400, buffer_offset: 0, length: 32 }
    );
    assert_eq!(
        one[0],
        PixelAddressRange { start_address: 0x0420, buffer_offset: 0, length: 32 }
    );
    assert_eq!(
        one[5],
        PixelAddressRange { start_address: 0x0400 + 11 * 32, buffer_offset: 160, length: 32 }
    );
    assert_eq!(zero, Mlx90641::pixel_ranges(Subpage::Zero, AccessPattern::Interleave));
}

#[test]
fn subpages_partition_every_pixel() {
    for pattern in [AccessPattern::Chess, AccessPattern::Interleave] {
        let zero = Mlx90642::pixels_in_subpage(Subpage::Zero, pattern);
        let one = Mlx90642::pixels_in_subpage(Subpage::One, pattern);
        assert_eq!(zero.len(), 12 * 16);
        assert_eq!(one.len(), 12 * 16);
        assert!(zero.iter().zip(one.iter()).all(|(a, b)| *a != *b));
        assert_eq!(zero.iter().filter(|m| **m).count(), 96);
        assert!(Mlx90642::image_needs_both_subpages(pattern));
    }
}

#[test]
fn subpage_patterns() {
    let chess = Mlx90642::pixels_in_subpage(Subpage::Zero, AccessPattern::Chess);
    assert!(chess[0]);
    assert!(!chess[1]);
    assert!(!chess[16]);
    assert!(chess[17]);
    let rows = Mlx90641::pixels_in_subpage(Subpage::One, AccessPattern::Interleave);
    assert!(!rows[0]);
    assert!(!rows[15]);
    assert!(rows[16]);
    assert!(rows[31]);
    assert!(!rows[32]);
}

#[test]
fn compensation_pixels() {
    assert_eq!(Mlx90642::compensation_pixel(Subpage::Zero), 0x0588);
    assert_eq!(Mlx90642::compensation_pixel(Subpage::One), 0x05A8);
}

#[test]
fn resolution_correction_exponents() {
    assert_eq!(
        Mlx90642::resolution_correction_exponent(Resolution::Eighteen, Resolution::Sixteen),
        2
    );
    assert_eq!(
        Mlx90642::resolution_correction_exponent(Resolution::Sixteen, Resolution::Nineteen),
        -3
    );
    assert_eq!(
        Mlx90641::resolution_correction_exponent(Resolution::Seventeen, Resolution::Seventeen),
        0
    );
}
