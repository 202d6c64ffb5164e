//! The extended Hamming code that protects each word of the calibration memory.
//!
//! A word carries an 11-bit payload in bits 0 to 10, four check bits in bits 11 to 14 and
//! an overall parity bit in bit 15. Any single flipped bit is corrected; any two flipped
//! bits are detected.
use vstd::prelude::*;

use crate::error::LibraryError;

verus! {

/// Mask of the payload bits of a word.
pub const DATA_MASK: u16 = 0x07FF;

/// Bit `i` of `w`, as 0 or 1.
pub open spec fn bit(w: u16, i: u16) -> u16 {
    (w >> i) & 1
}

/// First check equation: zero on a valid word.
pub open spec fn check0(w: u16) -> u16 {
    bit(w, 0) ^ bit(w, 1) ^ bit(w, 3) ^ bit(w, 4) ^ bit(w, 6) ^ bit(w, 8) ^ bit(w, 10) ^ bit(w, 11)
}

/// Second check equation: zero on a valid word.
pub open spec fn check1(w: u16) -> u16 {
    bit(w, 0) ^ bit(w, 2) ^ bit(w, 3) ^ bit(w, 5) ^ bit(w, 6) ^ bit(w, 9) ^ bit(w, 10) ^ bit(w, 12)
}

/// Third check equation: zero on a valid word.
pub open spec fn check2(w: u16) -> u16 {
    bit(w, 1) ^ bit(w, 2) ^ bit(w, 3) ^ bit(w, 7) ^ bit(w, 8) ^ bit(w, 9) ^ bit(w, 10) ^ bit(w, 13)
}

/// Fourth check equation: zero on a valid word.
pub open spec fn check3(w: u16) -> u16 {
    bit(w, 4) ^ bit(w, 5) ^ bit(w, 6) ^ bit(w, 7) ^ bit(w, 8) ^ bit(w, 9) ^ bit(w, 10) ^ bit(w, 14)
}

/// Overall parity of the sixteen bits: zero on a valid word.
pub open spec fn check4(w: u16) -> u16 {
    bit(w, 0) ^ bit(w, 1) ^ bit(w, 2) ^ bit(w, 3) ^ bit(w, 4) ^ bit(w, 5) ^ bit(w, 6) ^ bit(w, 7)
        ^ bit(w, 8) ^ bit(w, 9) ^ bit(w, 10) ^ bit(w, 11) ^ bit(w, 12) ^ bit(w, 13) ^ bit(w, 14)
        ^ bit(w, 15)
}

/// The syndrome of a word: the five check equations as bits 0 to 4.
pub open spec fn syndrome(w: u16) -> u16 {
    check0(w) | (check1(w) << 1u16) | (check2(w) << 2u16) | (check3(w) << 3u16) | (check4(w)
        << 4u16)
}

/// The bit position that a syndrome with odd overall parity points at.
pub open spec fn error_position(s: u16) -> u16 {
    if s == 16 {
        15
    } else if s == 24 {
        14
    } else if s == 20 {
        13
    } else if s == 18 {
        12
    } else if s == 17 {
        11
    } else if s == 31 {
        10
    } else if s == 30 {
        9
    } else if s == 29 {
        8
    } else if s == 28 {
        7
    } else if s == 27 {
        6
    } else if s == 26 {
        5
    } else if s == 25 {
        4
    } else if s == 23 {
        3
    } else if s == 22 {
        2
    } else if s == 21 {
        1
    } else {
        0
    }
}

/// The payload held by a word, after correcting at most one flipped bit; `None` where the
/// syndrome shows an error that cannot be corrected.
pub open spec fn decode_word(w: u16) -> Option<u16> {
    let s = syndrome(w);
    if s == 0 {
        Some(w & DATA_MASK)
    } else if s >= 16 {
        Some((w ^ (1u16 << error_position(s))) & DATA_MASK)
    } else {
        None
    }
}

/// The check bits, in bits 11 to 15, that a payload is stored with.
pub open spec fn parity_bits(d: u16) -> u16 {
    let p0 = bit(d, 0) ^ bit(d, 1) ^ bit(d, 3) ^ bit(d, 4) ^ bit(d, 6) ^ bit(d, 8) ^ bit(d, 10);
    let p1 = bit(d, 0) ^ bit(d, 2) ^ bit(d, 3) ^ bit(d, 5) ^ bit(d, 6) ^ bit(d, 9) ^ bit(d, 10);
    let p2 = bit(d, 1) ^ bit(d, 2) ^ bit(d, 3) ^ bit(d, 7) ^ bit(d, 8) ^ bit(d, 9) ^ bit(d, 10);
    let p3 = bit(d, 4) ^ bit(d, 5) ^ bit(d, 6) ^ bit(d, 7) ^ bit(d, 8) ^ bit(d, 9) ^ bit(d, 10);
    let all = bit(d, 0) ^ bit(d, 1) ^ bit(d, 2) ^ bit(d, 3) ^ bit(d, 4) ^ bit(d, 5) ^ bit(d, 6)
        ^ bit(d, 7) ^ bit(d, 8) ^ bit(d, 9) ^ bit(d, 10);
    let p4 = all ^ p0 ^ p1 ^ p2 ^ p3;
    (p0 << 11u16) | (p1 << 12u16) | (p2 << 13u16) | (p3 << 14u16) | (p4 << 15u16)
}

/// The word that stores payload `d` (whose bits above bit 10 are zero).
pub open spec fn encode_word(d: u16) -> u16 {
    d | parity_bits(d)
}

/// Decodes one memory word: the payload, corrected where one bit was flipped, or an error
/// naming `address` where the word holds an uncorrectable error.
pub fn validate_checksum(word: u16, address: u16) -> (r: Result<u16, LibraryError>)
    ensures
        match decode_word(word) {
            Some(d) => r == Ok::<u16, LibraryError>(d),
            None => r == Err::<u16, LibraryError>(LibraryError::Checksum(address)),
        },
{
    let c0 = ((word >> 0u16) & 1) ^ ((word >> 1u16) & 1) ^ ((word >> 3u16) & 1) ^ ((word >> 4u16)
        & 1) ^ ((word >> 6u16) & 1) ^ ((word >> 8u16) & 1) ^ ((word >> 10u16) & 1) ^ ((word
        >> 11u16) & 1);
    let c1 = ((word >> 0u16) & 1) ^ ((word >> 2u16) & 1) ^ ((word >> 3u16) & 1) ^ ((word >> 5u16)
        & 1) ^ ((word >> 6u16) & 1) ^ ((word >> 9u16) & 1) ^ ((word >> 10u16) & 1) ^ ((word
        >> 12u16) & 1);
    let c2 = ((word >> 1u16) & 1) ^ ((word >> 2u16) & 1) ^ ((word >> 3u16) & 1) ^ ((word >> 7u16)
        & 1) ^ ((word >> 8u16) & 1) ^ ((word >> 9u16) & 1) ^ ((word >> 10u16) & 1) ^ ((word
        >> 13u16) & 1);
    let c3 = ((word >> 4u16) & 1) ^ ((word >> 5u16) & 1) ^ ((word >> 6u16) & 1) ^ ((word >> 7u16)
        & 1) ^ ((word >> 8u16) & 1) ^ ((word >> 9u16) & 1) ^ ((word >> 10u16) & 1) ^ ((word
        >> 14u16) & 1);
    let c4 = ((word >> 0u16) & 1) ^ ((word >> 1u16) & 1) ^ ((word >> 2u16) & 1) ^ ((word >> 3u16)
        & 1) ^ ((word >> 4u16) & 1) ^ ((word >> 5u16) & 1) ^ ((word >> 6u16) & 1) ^ ((word
        >> 7u16) & 1) ^ ((word >> 8u16) & 1) ^ ((word >> 9u16) & 1) ^ ((word >> 10u16) & 1) ^ ((
    word >> 11u16) & 1) ^ ((word >> 12u16) & 1) ^ ((word >> 13u16) & 1) ^ ((word >> 14u16) & 1)
        ^ ((word >> 15u16) & 1);
    let s: u16 = c0 | (c1 << 1u16) | (c2 << 2u16) | (c3 << 3u16) | (c4 << 4u16);
    assert(s == syndrome(word)) by (bit_vector)
        requires
            c0 == ((word >> 0u16) & 1) ^ ((word >> 1u16) & 1) ^ ((word >> 3u16) & 1) ^ ((word
                >> 4u16) & 1) ^ ((word >> 6u16) & 1) ^ ((word >> 8u16) & 1) ^ ((word >> 10u16)
                & 1) ^ ((word >> 11u16) & 1),
            c1 == ((word >> 0u16) & 1) ^ ((word >> 2u16) & 1) ^ ((word >> 3u16) & 1) ^ ((word
                >> 5u16) & 1) ^ ((word >> 6u16) & 1) ^ ((word >> 9u16) & 1) ^ ((word >> 10u16)
                & 1) ^ ((word >> 12u16) & 1),
            c2 == ((word >> 1u16) & 1) ^ ((word >> 2u16) & 1) ^ ((word >> 3u16) & 1) ^ ((word
                >> 7u16) & 1) ^ ((word >> 8u16) & 1) ^ ((word >> 9u16) & 1) ^ ((word >> 10u16)
                & 1) ^ ((word >> 13u16) & 1),
            c3 == ((word >> 4u16) & 1) ^ ((word >> 5u16) & 1) ^ ((word >> 6u16) & 1) ^ ((word
                >> 7u16) & 1) ^ ((word >> 8u16) & 1) ^ ((word >> 9u16) & 1) ^ ((word >> 10u16)
                & 1) ^ ((word >> 14u16) & 1),
            c4 == ((word >> 0u16) & 1) ^ ((word >> 1u16) & 1) ^ ((word >> 2u16) & 1) ^ ((word
                >> 3u16) & 1) ^ ((word >> 4u16) & 1) ^ ((word >> 5u16) & 1) ^ ((word >> 6u16)
                & 1) ^ ((word >> 7u16) & 1) ^ ((word >> 8u16) & 1) ^ ((word >> 9u16) & 1) ^ ((
            word >> 10u16) & 1) ^ ((word >> 11u16) & 1) ^ ((word >> 12u16) & 1) ^ ((word
                >> 13u16) & 1) ^ ((word >> 14u16) & 1) ^ ((word >> 15u16) & 1),
            s == c0 | (c1 << 1u16) | (c2 << 2u16) | (c3 << 3u16) | (c4 << 4u16),
    ;
    if s == 0 {
        Ok(word & DATA_MASK)
    } else if s >= 16 {
        let position: u16 = if s == 16 {
            15
        } else if s == 24 {
            14
        } else if s == 20 {
            13
        } else if s == 18 {
            12
        } else if s == 17 {
            11
        } else if s == 31 {
            10
        } else if s == 30 {
            9
        } else if s == 29 {
            8
        } else if s == 28 {
            7
        } else if s == 27 {
            6
        } else if s == 26 {
            5
        } else if s == 25 {
            4
        } else if s == 23 {
            3
        } else if s == 22 {
            2
        } else if s == 21 {
            1
        } else {
            0
        };
        assert(position == error_position(s));
        assert(position < 16);
        Ok((word ^ (1u16 << position)) & DATA_MASK)
    } else {
        Err(LibraryError::Checksum(address))
    }
}

/// Stores a payload with its check bits, ready to be decoded by [`validate_checksum`].
/// A payload wider than 11 bits is refused.
pub fn add_checksum(data: u16) -> (r: Result<u16, LibraryError>)
    ensures
        data <= DATA_MASK ==> r == Ok::<u16, LibraryError>(encode_word(data)),
        data > DATA_MASK ==> r == Err::<u16, LibraryError>(
            LibraryError::InvalidData("checksum payload wider than 11 bits"),
        ),
{
    if data > DATA_MASK {
        return Err(LibraryError::InvalidData("checksum payload wider than 11 bits"));
    }
    let d = data;
    let p0 = ((d >> 0u16) & 1) ^ ((d >> 1u16) & 1) ^ ((d >> 3u16) & 1) ^ ((d >> 4u16) & 1) ^ ((d
        >> 6u16) & 1) ^ ((d >> 8u16) & 1) ^ ((d >> 10u16) & 1);
    let p1 = ((d >> 0u16) & 1) ^ ((d >> 2u16) & 1) ^ ((d >> 3u16) & 1) ^ ((d >> 5u16) & 1) ^ ((d
        >> 6u16) & 1) ^ ((d >> 9u16) & 1) ^ ((d >> 10u16) & 1);
    let p2 = ((d >> 1u16) & 1) ^ ((d >> 2u16) & 1) ^ ((d >> 3u16) & 1) ^ ((d >> 7u16) & 1) ^ ((d
        >> 8u16) & 1) ^ ((d >> 9u16) & 1) ^ ((d >> 10u16) & 1);
    let p3 = ((d >> 4u16) & 1) ^ ((d >> 5u16) & 1) ^ ((d >> 6u16) & 1) ^ ((d >> 7u16) & 1) ^ ((d
        >> 8u16) & 1) ^ ((d >> 9u16) & 1) ^ ((d >> 10u16) & 1);
    let all = ((d >> 0u16) & 1) ^ ((d >> 1u16) & 1) ^ ((d >> 2u16) & 1) ^ ((d >> 3u16) & 1) ^ ((d
        >> 4u16) & 1) ^ ((d >> 5u16) & 1) ^ ((d >> 6u16) & 1) ^ ((d >> 7u16) & 1) ^ ((d >> 8u16)
        & 1) ^ ((d >> 9u16) & 1) ^ ((d >> 10u16) & 1);
    let p4 = all ^ p0 ^ p1 ^ p2 ^ p3;
    let w: u16 = d | (p0 << 11u16) | (p1 << 12u16) | (p2 << 13u16) | (p3 << 14u16) | (p4 << 15u16);
    assert(w == encode_word(d)) by (bit_vector)
        requires
            p0 == ((d >> 0u16) & 1) ^ ((d >> 1u16) & 1) ^ ((d >> 3u16) & 1) ^ ((d >> 4u16) & 1)
                ^ ((d >> 6u16) & 1) ^ ((d >> 8u16) & 1) ^ ((d >> 10u16) & 1),
            p1 == ((d >> 0u16) & 1) ^ ((d >> 2u16) & 1) ^ ((d >> 3u16) & 1) ^ ((d >> 5u16) & 1)
                ^ ((d >> 6u16) & 1) ^ ((d >> 9u16) & 1) ^ ((d >> 10u16) & 1),
            p2 == ((d >> 1u16) & 1) ^ ((d >> 2u16) & 1) ^ ((d >> 3u16) & 1) ^ ((d >> 7u16) & 1)
                ^ ((d >> 8u16) & 1) ^ ((d >> 9u16) & 1) ^ ((d >> 10u16) & 1),
            p3 == ((d >> 4u16) & 1) ^ ((d >> 5u16) & 1) ^ ((d >> 6u16) & 1) ^ ((d >> 7u16) & 1)
                ^ ((d >> 8u16) & 1) ^ ((d >> 9u16) & 1) ^ ((d >> 10u16) & 1),
            all == ((d >> 0u16) & 1) ^ ((d >> 1u16) & 1) ^ ((d >> 2u16) & 1) ^ ((d >> 3u16) & 1)
                ^ ((d >> 4u16) & 1) ^ ((d >> 5u16) & 1) ^ ((d >> 6u16) & 1) ^ ((d >> 7u16) & 1)
                ^ ((d >> 8u16) & 1) ^ ((d >> 9u16) & 1) ^ ((d >> 10u16) & 1),
            p4 == all ^ p0 ^ p1 ^ p2 ^ p3,
            w == d | (p0 << 11u16) | (p1 << 12u16) | (p2 << 13u16) | (p3 << 14u16) | (p4
                << 15u16),
    ;
    Ok(w)
}

/// Whatever a word decodes to fits in 11 bits.
pub proof fn lemma_payload_fits(w: u16)
    ensures
        decode_word(w) matches Some(d) ==> d <= DATA_MASK,
{
    let s = syndrome(w);
    assert(w & 0x07FF <= 0x07FF) by (bit_vector);
    assert((w ^ (1u16 << error_position(s))) & 0x07FF <= 0x07FF) by (bit_vector);
}

/// A word with a zero syndrome is exactly the stored form of its payload.
pub proof fn lemma_clean_word_is_encoded(w: u16)
    requires
        syndrome(w) == 0,
    ensures
        encode_word(w & DATA_MASK) == w,
        w & DATA_MASK <= DATA_MASK,
        (w & DATA_MASK) & DATA_MASK == w & DATA_MASK,
        decode_word(w) == Some(w & DATA_MASK),
{
    assert(w & 0x07FF <= 0x07FF) by (bit_vector);
    assert(encode_word(w & 0x07FF) == w && (w & 0x07FF) & 0x07FF == w & 0x07FF) by (bit_vector)
        requires
            syndrome(w) == 0,
    ;
}

/// A stored payload decodes to itself.
pub proof fn lemma_encoded_word_decodes(d: u16)
    requires
        d <= DATA_MASK,
    ensures
        decode_word(encode_word(d)) == Some(d),
{
    assert(syndrome(encode_word(d)) == 0 && encode_word(d) & 0x07FF == d) by (bit_vector)
        requires
            d <= 0x07FF,
    ;
}

/// A stored payload with any one of its sixteen bits flipped still decodes to the payload.
pub proof fn lemma_single_flip_corrected(d: u16, i: u16)
    requires
        d <= DATA_MASK,
        i < 16,
    ensures
        decode_word(encode_word(d) ^ (1u16 << i)) == Some(d),
{
    let w = encode_word(d) ^ (1u16 << i);
    assert(syndrome(w) >= 16 && (w ^ (1u16 << error_position(syndrome(w)))) & 0x07FF == d)
        by (bit_vector)
        requires
            d <= 0x07FF,
            i < 16,
            w == encode_word(d) ^ (1u16 << i),
    ;
}

/// A stored payload with two distinct bits flipped is reported as uncorrectable, never
/// decoded to some payload.
pub proof fn lemma_double_flip_detected(d: u16, i: u16, j: u16)
    requires
        d <= DATA_MASK,
        i < 16,
        j < 16,
        i != j,
    ensures
        decode_word(encode_word(d) ^ (1u16 << i) ^ (1u16 << j)) is None,
{
    let w = encode_word(d) ^ (1u16 << i) ^ (1u16 << j);
    assert(syndrome(w) != 0 && syndrome(w) < 16) by (bit_vector)
        requires
            d <= 0x07FF,
            i < 16,
            j < 16,
            i != j,
            w == encode_word(d) ^ (1u16 << i) ^ (1u16 << j),
    ;
}

} // verus!
