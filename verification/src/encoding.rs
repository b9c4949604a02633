//! Pure, stateless encoding of displayable symbols into 7-segment patterns.
//!
//! A pattern is an 8-bit value with active-low segments: a cleared bit lights
//! the segment, a set bit leaves it dark. Bit order, high to low, is
//! `.GFE_DCBA` (bit 7 is the unused decimal point).
//!
//! ```text
//!           A
//!          ===
//!      F ||   || B
//!          =G=
//!      E ||   || C
//!          ===
//!           D
//! ```

use vstd::prelude::*;

verus! {

/// Pattern with every segment dark (blank slot).
pub const BLANK: u8 = 0b1111_1111;
/// Pattern with only the middle (G) segment lit.
pub const MINUS: u8 = 0b1011_1111;
/// Pattern with only the bottom (D) segment lit.
pub const UNDERSCORE: u8 = 0b1111_0111;

/// The numeral table: the pattern for a decimal digit `d` in `[0, 10)`.
pub open spec fn digit_segments(d: int) -> u8 {
    if d == 0 {
        0b1100_0000
    } else if d == 1 {
        0b1111_1001
    } else if d == 2 {
        0b1010_0100
    } else if d == 3 {
        0b1011_0000
    } else if d == 4 {
        0b1001_1001
    } else if d == 5 {
        0b1001_0010
    } else if d == 6 {
        0b1000_0010
    } else if d == 7 {
        0b1111_1000
    } else if d == 8 {
        0b1000_0000
    } else {
        0b1001_1000
    }
}

/// The letter table: the pattern for the `k`-th letter of the alphabet,
/// `k` in `[0, 26)` with 0 = A. Some letters are visually ambiguous on seven
/// segments by nature (U and V share a pattern, so do S and 5).
pub open spec fn letter_segments(k: int) -> u8 {
    if k == 0 {
        0b1000_1000  // A
    } else if k == 1 {
        0b1000_0011  // B
    } else if k == 2 {
        0b1100_0110  // C
    } else if k == 3 {
        0b1010_0001  // D
    } else if k == 4 {
        0b1000_0110  // E
    } else if k == 5 {
        0b1000_1110  // F
    } else if k == 6 {
        0b1100_0010  // G
    } else if k == 7 {
        0b1000_1001  // H
    } else if k == 8 {
        0b1100_1111  // I
    } else if k == 9 {
        0b1110_0001  // J
    } else if k == 10 {
        0b1000_1010  // K
    } else if k == 11 {
        0b1100_0111  // L
    } else if k == 12 {
        0b1110_1010  // M
    } else if k == 13 {
        0b1100_1000  // N
    } else if k == 14 {
        0b1100_0000  // O
    } else if k == 15 {
        0b1000_1100  // P
    } else if k == 16 {
        0b1001_0100  // Q
    } else if k == 17 {
        0b1100_1100  // R
    } else if k == 18 {
        0b1001_0010  // S
    } else if k == 19 {
        0b1000_0111  // T
    } else if k == 20 {
        0b1100_0001  // U
    } else if k == 21 {
        0b1100_0001  // V
    } else if k == 22 {
        0b1101_0101  // W
    } else if k == 23 {
        0b1000_1001  // X
    } else if k == 24 {
        0b1001_0001  // Y
    } else {
        0b1010_0100  // Z
    }
}

/// The pattern any character displays as. Digits use the numeral table,
/// letters the letter table (lower case is normalized to upper case first),
/// space, `-` and `_` their fixed patterns, and every other symbol degrades
/// to a blank slot. Total: every character maps to some pattern.
pub open spec fn char_segments(c: char) -> u8 {
    let u = c as u32;
    if '0' as u32 <= u && u <= '9' as u32 {
        digit_segments(u - '0' as u32)
    } else if 'A' as u32 <= u && u <= 'Z' as u32 {
        letter_segments(u - 'A' as u32)
    } else if 'a' as u32 <= u && u <= 'z' as u32 {
        letter_segments(u - 'a' as u32)
    } else if c == ' ' {
        BLANK
    } else if c == '-' {
        MINUS
    } else if c == '_' {
        UNDERSCORE
    } else {
        BLANK
    }
}

/// Look up the numeral table for a digit value.
pub fn digit_to_segment_code(d: u8) -> (code: u8)
    requires
        d < 10,
    ensures
        code == digit_segments(d as int),
{
    match d {
        0 => 0b1100_0000,
        1 => 0b1111_1001,
        2 => 0b1010_0100,
        3 => 0b1011_0000,
        4 => 0b1001_1001,
        5 => 0b1001_0010,
        6 => 0b1000_0010,
        7 => 0b1111_1000,
        8 => 0b1000_0000,
        _ => 0b1001_1000,
    }
}

/// Look up the letter table for an alphabet offset (0 = A).
fn letter_to_segment_code(k: u8) -> (code: u8)
    requires
        k < 26,
    ensures
        code == letter_segments(k as int),
{
    match k {
        0 => 0b1000_1000,
        1 => 0b1000_0011,
        2 => 0b1100_0110,
        3 => 0b1010_0001,
        4 => 0b1000_0110,
        5 => 0b1000_1110,
        6 => 0b1100_0010,
        7 => 0b1000_1001,
        8 => 0b1100_1111,
        9 => 0b1110_0001,
        10 => 0b1000_1010,
        11 => 0b1100_0111,
        12 => 0b1110_1010,
        13 => 0b1100_1000,
        14 => 0b1100_0000,
        15 => 0b1000_1100,
        16 => 0b1001_0100,
        17 => 0b1100_1100,
        18 => 0b1001_0010,
        19 => 0b1000_0111,
        20 => 0b1100_0001,
        21 => 0b1100_0001,
        22 => 0b1101_0101,
        23 => 0b1000_1001,
        24 => 0b1001_0001,
        _ => 0b1010_0100,
    }
}

/// Encode one character as its segment pattern. Never fails: unmapped
/// symbols come out blank.
pub fn char_to_segment_code(c: char) -> (code: u8)
    ensures
        code == char_segments(c),
{
    let u = c as u32;
    if '0' as u32 <= u && u <= '9' as u32 {
        digit_to_segment_code((u - '0' as u32) as u8)
    } else if 'A' as u32 <= u && u <= 'Z' as u32 {
        letter_to_segment_code((u - 'A' as u32) as u8)
    } else if 'a' as u32 <= u && u <= 'z' as u32 {
        letter_to_segment_code((u - 'a' as u32) as u8)
    } else if c == ' ' {
        BLANK
    } else if c == '-' {
        MINUS
    } else if c == '_' {
        UNDERSCORE
    } else {
        BLANK
    }
}

/// A digit character encodes exactly as its numeric value does: the two
/// lookup paths agree on `'0'` through `'9'`.
pub proof fn lemma_digit_char_agrees(c: char)
    requires
        '0' as u32 <= c as u32 <= '9' as u32,
    ensures
        char_segments(c) == digit_segments(c as u32 - '0' as u32),
{
}

/// Encoding is case-insensitive: a lower-case letter shares its pattern with
/// the corresponding upper-case letter.
pub proof fn lemma_case_insensitive(lower: char, upper: char)
    requires
        'A' as u32 <= upper as u32 <= 'Z' as u32,
        lower as u32 == upper as u32 + 32,
    ensures
        char_segments(lower) == char_segments(upper),
{
}

/// Every character outside the digits, the letters and the three mapped
/// symbols (space, `-`, `_`) degrades to the blank pattern.
pub proof fn lemma_unmapped_is_blank(c: char)
    requires
        !('0' as u32 <= c as u32 <= '9' as u32),
        !('A' as u32 <= c as u32 <= 'Z' as u32),
        !('a' as u32 <= c as u32 <= 'z' as u32),
        c != '-',
        c != '_',
    ensures
        char_segments(c) == BLANK,
{
}

} // verus!
