//! The fixed ramp of characters ordered by visual density, and the
//! quantization of an 8-bit luminance value onto it.

use vstd::prelude::*;

verus! {

/// Number of characters in the density ramp.
pub const RAMP_LEN: u64 = 70;

/// The character at position `i` of the fixed density ramp:
/// index 0 is the visually densest (`'$'`), index 69 the sparsest (`' '`).
pub open spec fn ramp_char_spec(i: int) -> char {
    if i == 0 {
        '$'
    } else if i == 1 {
        '@'
    } else if i == 2 {
        'B'
    } else if i == 3 {
        '%'
    } else if i == 4 {
        '8'
    } else if i == 5 {
        '&'
    } else if i == 6 {
        'W'
    } else if i == 7 {
        'M'
    } else if i == 8 {
        '#'
    } else if i == 9 {
        '*'
    } else if i == 10 {
        'o'
    } else if i == 11 {
        'a'
    } else if i == 12 {
        'h'
    } else if i == 13 {
        'k'
    } else if i == 14 {
        'b'
    } else if i == 15 {
        'd'
    } else if i == 16 {
        'p'
    } else if i == 17 {
        'q'
    } else if i == 18 {
        'w'
    } else if i == 19 {
        'm'
    } else if i == 20 {
        'Z'
    } else if i == 21 {
        'O'
    } else if i == 22 {
        '0'
    } else if i == 23 {
        'Q'
    } else if i == 24 {
        'L'
    } else if i == 25 {
        'C'
    } else if i == 26 {
        'J'
    } else if i == 27 {
        'U'
    } else if i == 28 {
        'Y'
    } else if i == 29 {
        'X'
    } else if i == 30 {
        'z'
    } else if i == 31 {
        'c'
    } else if i == 32 {
        'v'
    } else if i == 33 {
        'u'
    } else if i == 34 {
        'n'
    } else if i == 35 {
        'x'
    } else if i == 36 {
        'r'
    } else if i == 37 {
        'j'
    } else if i == 38 {
        'f'
    } else if i == 39 {
        't'
    } else if i == 40 {
        '/'
    } else if i == 41 {
        '\\'
    } else if i == 42 {
        '|'
    } else if i == 43 {
        '('
    } else if i == 44 {
        ')'
    } else if i == 45 {
        '1'
    } else if i == 46 {
        '{'
    } else if i == 47 {
        '}'
    } else if i == 48 {
        '['
    } else if i == 49 {
        ']'
    } else if i == 50 {
        '?'
    } else if i == 51 {
        '-'
    } else if i == 52 {
        '_'
    } else if i == 53 {
        '+'
    } else if i == 54 {
        '~'
    } else if i == 55 {
        '<'
    } else if i == 56 {
        '>'
    } else if i == 57 {
        'i'
    } else if i == 58 {
        '!'
    } else if i == 59 {
        'l'
    } else if i == 60 {
        'I'
    } else if i == 61 {
        ';'
    } else if i == 62 {
        ':'
    } else if i == 63 {
        ','
    } else if i == 64 {
        '"'
    } else if i == 65 {
        '^'
    } else if i == 66 {
        '`'
    } else if i == 67 {
        '\''
    } else if i == 68 {
        '.'
    } else {
        ' '
    }
}

/// The ramp position that a luminance value quantizes to:
/// `floor(l / 255 * 69)`, written over the integers.
pub open spec fn ramp_index_spec(l: u8) -> int {
    (l as int) * 69 / 255
}

/// The character that a luminance value renders as.
pub open spec fn rendered_char(l: u8) -> char {
    ramp_char_spec(ramp_index_spec(l))
}

/// Quantizes a luminance value onto the ramp. The result is always a
/// valid ramp index: luminance 0 maps to index 0 and 255 to index 69.
pub fn ramp_index(l: u8) -> (i: usize)
    ensures
        i == ramp_index_spec(l),
        i < RAMP_LEN,
{
    proof {
        assert((l as int) * 69 / 255 <= 69 && (l as int) * 69 / 255 >= 0) by (nonlinear_arith)
            requires
                0 <= l <= 255,
        ;
    }
    ((l as u32) * 69 / 255) as usize
}

/// Looks the character at ramp position `i` up.
pub fn ramp_char(i: usize) -> (c: char)
    requires
        i < RAMP_LEN,
    ensures
        c == ramp_char_spec(i as int),
{
    match i {
        0 => '$',
        1 => '@',
        2 => 'B',
        3 => '%',
        4 => '8',
        5 => '&',
        6 => 'W',
        7 => 'M',
        8 => '#',
        9 => '*',
        10 => 'o',
        11 => 'a',
        12 => 'h',
        13 => 'k',
        14 => 'b',
        15 => 'd',
        16 => 'p',
        17 => 'q',
        18 => 'w',
        19 => 'm',
        20 => 'Z',
        21 => 'O',
        22 => '0',
        23 => 'Q',
        24 => 'L',
        25 => 'C',
        26 => 'J',
        27 => 'U',
        28 => 'Y',
        29 => 'X',
        30 => 'z',
        31 => 'c',
        32 => 'v',
        33 => 'u',
        34 => 'n',
        35 => 'x',
        36 => 'r',
        37 => 'j',
        38 => 'f',
        39 => 't',
        40 => '/',
        41 => '\\',
        42 => '|',
        43 => '(',
        44 => ')',
        45 => '1',
        46 => '{',
        47 => '}',
        48 => '[',
        49 => ']',
        50 => '?',
        51 => '-',
        52 => '_',
        53 => '+',
        54 => '~',
        55 => '<',
        56 => '>',
        57 => 'i',
        58 => '!',
        59 => 'l',
        60 => 'I',
        61 => ';',
        62 => ':',
        63 => ',',
        64 => '"',
        65 => '^',
        66 => '`',
        67 => '\'',
        68 => '.',
        _ => ' ',
    }
}

} // verus!
