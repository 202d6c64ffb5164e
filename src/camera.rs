//! Pixel geometry of the MLX90641, which the MLX90642 shares.
//!
//! The array has 12 rows of 16 pixels. Each pixel belongs to exactly one subpage: under the
//! chess pattern by the parity of its row plus its column, under the interleaved pattern by
//! the parity of its row. In RAM the two subpages' pixel data alternate in blocks of 32 words
//! starting at `0x0400`.
use vstd::prelude::*;

use crate::register::{AccessPattern, Resolution, Subpage};

verus! {

/// A run of consecutive RAM words to read, and where the values go in the output buffer.
#[derive(Clone, Copy, Debug, PartialEq, Eq, Structural)]
pub struct PixelAddressRange {
    /// First RAM address of the run.
    pub start_address: u16,
    /// Index in the output buffer of the first value of the run.
    pub buffer_offset: usize,
    /// Number of words in the run.
    pub length: usize,
}

/// Geometry and register map of the MLX90641.
#[derive(Clone, Copy, Debug, PartialEq, Eq, Structural)]
pub struct Mlx90641;

/// Rows of the pixel array.
pub const HEIGHT: usize = 12;

/// Columns of the pixel array.
pub const WIDTH: usize = 16;

/// Pixels in the array.
pub const NUM_PIXELS: usize = 192;

/// First RAM address of the pixel data.
pub const RAM_BASE: u16 = 0x0400;

/// Words in one block of pixel data.
pub const BLOCK_LENGTH: usize = 32;

/// Blocks of pixel data per subpage.
pub const BLOCKS_PER_SUBPAGE: usize = 6;

/// RAM address of the ambient sensor's base-emitter voltage.
pub const T_A_V_BE: u16 = 0x0580;

/// RAM address of the ambient sensor's PTAT voltage.
pub const T_A_PTAT: u16 = 0x05A0;

/// RAM address of the gain reference.
pub const GAIN: u16 = 0x058A;

/// RAM address of the supply voltage pixel.
pub const V_DD_PIXEL: u16 = 0x05AA;

/// Index of the temperature band that the basic range starts in.
pub const BASIC_TEMPERATURE_RANGE: usize = 1;

/// Pixel `i` (row-major) belongs to `subpage` under `access_pattern`.
pub open spec fn pixel_in_subpage(subpage: Subpage, access_pattern: AccessPattern, i: int) -> bool {
    let row = i / (WIDTH as int);
    let column = i % (WIDTH as int);
    &&& 0 <= i < NUM_PIXELS
    &&& match access_pattern {
        AccessPattern::Chess => (row + column) % 2 == subpage.spec_index(),
        AccessPattern::Interleave => row % 2 == subpage.spec_index(),
    }
}

/// The RAM run that block `b` of a subpage is read from.
pub open spec fn block_range(subpage: Subpage, b: int) -> PixelAddressRange {
    PixelAddressRange {
        start_address: (RAM_BASE + (2 * b + subpage.spec_index()) * BLOCK_LENGTH) as u16,
        buffer_offset: (b * BLOCK_LENGTH) as usize,
        length: BLOCK_LENGTH,
    }
}

impl Mlx90641 {
    /// The RAM runs to read for one subpage, in output-buffer order.
    pub fn pixel_ranges(subpage: Subpage, access_pattern: AccessPattern) -> (r: Vec<
        PixelAddressRange,
    >)
        ensures
            r@ == Seq::new(BLOCKS_PER_SUBPAGE as nat, |b: int| block_range(subpage, b)),
    {
        let s: u16 = match subpage {
            Subpage::Zero => 0,
            Subpage::One => 1,
        };
        let mut ranges: Vec<PixelAddressRange> = Vec::new();
        let mut b: usize = 0;
        while b < BLOCKS_PER_SUBPAGE
            invariant
                b <= BLOCKS_PER_SUBPAGE,
                s == subpage.spec_index(),
                ranges@ == Seq::new(b as nat, |j: int| block_range(subpage, j)),
            decreases BLOCKS_PER_SUBPAGE - b,
        {
            let range = PixelAddressRange {
                start_address: RAM_BASE + (2 * (b as u16) + s) * (BLOCK_LENGTH as u16),
                buffer_offset: b * BLOCK_LENGTH,
                length: BLOCK_LENGTH,
            };
            ranges.push(range);
            b += 1;
            assert(ranges@ =~= Seq::new(b as nat, |j: int| block_range(subpage, j)));
        }
        ranges
    }

    /// Which pixels belong to a subpage, in row-major order.
    pub fn pixels_in_subpage(subpage: Subpage, access_pattern: AccessPattern) -> (r: Vec<bool>)
        ensures
            r@ == Seq::new(NUM_PIXELS as nat, |i: int| pixel_in_subpage(subpage, access_pattern, i)),
    {
        let s: usize = match subpage {
            Subpage::Zero => 0,
            Subpage::One => 1,
        };
        let mut v: Vec<bool> = Vec::new();
        let mut i: usize = 0;
        while i < NUM_PIXELS
            invariant
                i <= NUM_PIXELS,
                s == subpage.spec_index(),
                v@ == Seq::new(i as nat, |j: int| pixel_in_subpage(subpage, access_pattern, j)),
            decreases NUM_PIXELS - i,
        {
            let row = i / WIDTH;
            let column = i % WIDTH;
            let member = match access_pattern {
                AccessPattern::Chess => (row + column) % 2 == s,
                AccessPattern::Interleave => row % 2 == s,
            };
            v.push(member);
            i += 1;
            assert(v@ =~= Seq::new(i as nat, |j: int| pixel_in_subpage(subpage, access_pattern, j)));
        }
        v
    }

    /// Whether a complete image needs both subpages under `access_pattern`: it does exactly
    /// when neither subpage alone holds every pixel.
    pub fn image_needs_both_subpages(access_pattern: AccessPattern) -> (r: bool)
        ensures
            r == ((exists|i: int| 0 <= i < NUM_PIXELS && !pixel_in_subpage(Subpage::Zero, access_pattern, i))
                && (exists|i: int| 0 <= i < NUM_PIXELS && !pixel_in_subpage(Subpage::One, access_pattern, i))),
    {
        proof {
            let odd: int = match access_pattern {
                AccessPattern::Chess => 1,
                AccessPattern::Interleave => 16,
            };
            assert(!pixel_in_subpage(Subpage::Zero, access_pattern, odd));
            assert(!pixel_in_subpage(Subpage::One, access_pattern, 0));
        }
        true
    }

    /// RAM address of the compensation pixel of a subpage.
    pub fn compensation_pixel(subpage: Subpage) -> (r: u16)
        ensures
            r == 0x0588 + 0x20 * subpage.spec_index(),
    {
        match subpage {
            Subpage::Zero => 0x0588,
            Subpage::One => 0x05A8,
        }
    }

    /// The power of two that compensates an ADC resolution different from the one the
    /// sensor was calibrated at: the correction factor is `2` raised to this exponent.
    pub fn resolution_correction_exponent(
        calibrated_resolution: Resolution,
        current_resolution: Resolution,
    ) -> (r: i8)
        ensures
            r == calibrated_resolution.spec_bits() - current_resolution.spec_bits(),
    {
        calibrated_resolution.bits() as i8 - current_resolution.bits() as i8
    }
}

/// Under either access pattern the subpages partition the array: every pixel belongs to
/// exactly one of them.
pub proof fn lemma_subpages_partition_pixels(access_pattern: AccessPattern, i: int)
    requires
        0 <= i < NUM_PIXELS,
    ensures
        pixel_in_subpage(Subpage::Zero, access_pattern, i) != pixel_in_subpage(
            Subpage::One,
            access_pattern,
            i,
        ),
{
}

} // verus!
