//! The 16-segment alphanumeric font: a static mapping from a character code
//! in `0..128` to a 16-bit segment word.  Bits 0 to 13 select the strokes of
//! the cell; bit 14 is the decimal-point flag, never set by the font itself;
//! bit 15 is unused by the glyphs.

use vstd::prelude::*;

verus! {

/// The decimal-point flag within a segment word: bit 14.
pub const ALPHA_POINT_MASK: u16 = 0x4000;

/// The segment word of character code `c`.  Codes 0 to 15 are single-segment
/// test patterns, 16 to 23 are blank, 24 to 31 are miscellaneous strokes, and
/// 32 to 127 follow the printable ASCII glyphs.
pub open spec fn spec_font_word(c: int) -> u16 {
    if c == 0 {
        0x0001
    } else if c == 1 {
        0x0002
    } else if c == 2 {
        0x0004
    } else if c == 3 {
        0x0008
    } else if c == 4 {
        0x0010
    } else if c == 5 {
        0x0020
    } else if c == 6 {
        0x0040
    } else if c == 7 {
        0x0080
    } else if c == 8 {
        0x0100
    } else if c == 9 {
        0x0200
    } else if c == 10 {
        0x0400
    } else if c == 11 {
        0x0800
    } else if c == 12 {
        0x1000
    } else if c == 13 {
        0x2000
    } else if c == 14 {
        0x4000
    } else if c == 15 {
        0x8000
    } else if c == 16 {
        0x0000
    } else if c == 17 {
        0x0000
    } else if c == 18 {
        0x0000
    } else if c == 19 {
        0x0000
    } else if c == 20 {
        0x0000
    } else if c == 21 {
        0x0000
    } else if c == 22 {
        0x0000
    } else if c == 23 {
        0x0000
    } else if c == 24 {
        0x12C9
    } else if c == 25 {
        0x15C0
    } else if c == 26 {
        0x12F9
    } else if c == 27 {
        0x00E3
    } else if c == 28 {
        0x0530
    } else if c == 29 {
        0x12C8
    } else if c == 30 {
        0x3A00
    } else if c == 31 {
        0x1700
    } else if c == 32 {
        0x0000  // space
    } else if c == 33 {
        0x0006  // !
    } else if c == 34 {
        0x0220  // "
    } else if c == 35 {
        0x12CE  // #
    } else if c == 36 {
        0x12ED  // $
    } else if c == 37 {
        0x0C24  // %
    } else if c == 38 {
        0x235D  // &
    } else if c == 39 {
        0x0400  // '
    } else if c == 40 {
        0x2400  // (
    } else if c == 41 {
        0x0900  // )
    } else if c == 42 {
        0x3FC0  // *
    } else if c == 43 {
        0x12C0  // +
    } else if c == 44 {
        0x0800  // ,
    } else if c == 45 {
        0x00C0  // -
    } else if c == 46 {
        0x0000  // .
    } else if c == 47 {
        0x0C00  // /
    } else if c == 48 {
        0x0C3F  // 0
    } else if c == 49 {
        0x0006  // 1
    } else if c == 50 {
        0x00DB  // 2
    } else if c == 51 {
        0x008F  // 3
    } else if c == 52 {
        0x00E6  // 4
    } else if c == 53 {
        0x2069  // 5
    } else if c == 54 {
        0x00FD  // 6
    } else if c == 55 {
        0x0007  // 7
    } else if c == 56 {
        0x00FF  // 8
    } else if c == 57 {
        0x00EF  // 9
    } else if c == 58 {
        0x1200  // :
    } else if c == 59 {
        0x0A00  // ;
    } else if c == 60 {
        0x2400  // <
    } else if c == 61 {
        0x00C8  // =
    } else if c == 62 {
        0x0900  // >
    } else if c == 63 {
        0x1083  // ?
    } else if c == 64 {
        0x02BB  // @
    } else if c == 65 {
        0x00F7  // A
    } else if c == 66 {
        0x128F  // B
    } else if c == 67 {
        0x0039  // C
    } else if c == 68 {
        0x120F  // D
    } else if c == 69 {
        0x00F9  // E
    } else if c == 70 {
        0x0071  // F
    } else if c == 71 {
        0x00BD  // G
    } else if c == 72 {
        0x00F6  // H
    } else if c == 73 {
        0x1200  // I
    } else if c == 74 {
        0x001E  // J
    } else if c == 75 {
        0x2470  // K
    } else if c == 76 {
        0x0038  // L
    } else if c == 77 {
        0x0536  // M
    } else if c == 78 {
        0x2136  // N
    } else if c == 79 {
        0x003F  // O
    } else if c == 80 {
        0x00F3  // P
    } else if c == 81 {
        0x203F  // Q
    } else if c == 82 {
        0x20F3  // R
    } else if c == 83 {
        0x00ED  // S
    } else if c == 84 {
        0x1201  // T
    } else if c == 85 {
        0x003E  // U
    } else if c == 86 {
        0x0C30  // V
    } else if c == 87 {
        0x2836  // W
    } else if c == 88 {
        0x2D00  // X
    } else if c == 89 {
        0x1500  // Y
    } else if c == 90 {
        0x0C09  // Z
    } else if c == 91 {
        0x0039  // [
    } else if c == 92 {
        0x2100  // backslash
    } else if c == 93 {
        0x000F  // ]
    } else if c == 94 {
        0x0C03  // ^
    } else if c == 95 {
        0x0008  // _
    } else if c == 96 {
        0x0100  // `
    } else if c == 97 {
        0x1058  // a
    } else if c == 98 {
        0x2078  // b
    } else if c == 99 {
        0x00D8  // c
    } else if c == 100 {
        0x088E  // d
    } else if c == 101 {
        0x0858  // e
    } else if c == 102 {
        0x0071  // f
    } else if c == 103 {
        0x048E  // g
    } else if c == 104 {
        0x1070  // h
    } else if c == 105 {
        0x1000  // i
    } else if c == 106 {
        0x000E  // j
    } else if c == 107 {
        0x3600  // k
    } else if c == 108 {
        0x0030  // l
    } else if c == 109 {
        0x10D4  // m
    } else if c == 110 {
        0x1050  // n
    } else if c == 111 {
        0x00DC  // o
    } else if c == 112 {
        0x0170  // p
    } else if c == 113 {
        0x0486  // q
    } else if c == 114 {
        0x0050  // r
    } else if c == 115 {
        0x2088  // s
    } else if c == 116 {
        0x0078  // t
    } else if c == 117 {
        0x001C  // u
    } else if c == 118 {
        0x2004  // v
    } else if c == 119 {
        0x2814  // w
    } else if c == 120 {
        0x28C0  // x
    } else if c == 121 {
        0x200C  // y
    } else if c == 122 {
        0x0848  // z
    } else if c == 123 {
        0x0949  // {
    } else if c == 124 {
        0x1200  // |
    } else if c == 125 {
        0x2489  // }
    } else if c == 126 {
        0x0520  // ~
    } else {
        0x3FFF
    }
}

/// Looks up the segment word for the character code `c` in the font.
pub fn font_word(c: u8) -> (r: u16)
    requires
        c < 128,
    ensures
        r == spec_font_word(c as int),
{
    if c == 0 {
        0x0001
    } else if c == 1 {
        0x0002
    } else if c == 2 {
        0x0004
    } else if c == 3 {
        0x0008
    } else if c == 4 {
        0x0010
    } else if c == 5 {
        0x0020
    } else if c == 6 {
        0x0040
    } else if c == 7 {
        0x0080
    } else if c == 8 {
        0x0100
    } else if c == 9 {
        0x0200
    } else if c == 10 {
        0x0400
    } else if c == 11 {
        0x0800
    } else if c == 12 {
        0x1000
    } else if c == 13 {
        0x2000
    } else if c == 14 {
        0x4000
    } else if c == 15 {
        0x8000
    } else if c == 16 {
        0x0000
    } else if c == 17 {
        0x0000
    } else if c == 18 {
        0x0000
    } else if c == 19 {
        0x0000
    } else if c == 20 {
        0x0000
    } else if c == 21 {
        0x0000
    } else if c == 22 {
        0x0000
    } else if c == 23 {
        0x0000
    } else if c == 24 {
        0x12C9
    } else if c == 25 {
        0x15C0
    } else if c == 26 {
        0x12F9
    } else if c == 27 {
        0x00E3
    } else if c == 28 {
        0x0530
    } else if c == 29 {
        0x12C8
    } else if c == 30 {
        0x3A00
    } else if c == 31 {
        0x1700
    } else if c == 32 {
        0x0000  // space
    } else if c == 33 {
        0x0006  // !
    } else if c == 34 {
        0x0220  // "
    } else if c == 35 {
        0x12CE  // #
    } else if c == 36 {
        0x12ED  // $
    } else if c == 37 {
        0x0C24  // %
    } else if c == 38 {
        0x235D  // &
    } else if c == 39 {
        0x0400  // '
    } else if c == 40 {
        0x2400  // (
    } else if c == 41 {
        0x0900  // )
    } else if c == 42 {
        0x3FC0  // *
    } else if c == 43 {
        0x12C0  // +
    } else if c == 44 {
        0x0800  // ,
    } else if c == 45 {
        0x00C0  // -
    } else if c == 46 {
        0x0000  // .
    } else if c == 47 {
        0x0C00  // /
    } else if c == 48 {
        0x0C3F  // 0
    } else if c == 49 {
        0x0006  // 1
    } else if c == 50 {
        0x00DB  // 2
    } else if c == 51 {
        0x008F  // 3
    } else if c == 52 {
        0x00E6  // 4
    } else if c == 53 {
        0x2069  // 5
    } else if c == 54 {
        0x00FD  // 6
    } else if c == 55 {
        0x0007  // 7
    } else if c == 56 {
        0x00FF  // 8
    } else if c == 57 {
        0x00EF  // 9
    } else if c == 58 {
        0x1200  // :
    } else if c == 59 {
        0x0A00  // ;
    } else if c == 60 {
        0x2400  // <
    } else if c == 61 {
        0x00C8  // =
    } else if c == 62 {
        0x0900  // >
    } else if c == 63 {
        0x1083  // ?
    } else if c == 64 {
        0x02BB  // @
    } else if c == 65 {
        0x00F7  // A
    } else if c == 66 {
        0x128F  // B
    } else if c == 67 {
        0x0039  // C
    } else if c == 68 {
        0x120F  // D
    } else if c == 69 {
        0x00F9  // E
    } else if c == 70 {
        0x0071  // F
    } else if c == 71 {
        0x00BD  // G
    } else if c == 72 {
        0x00F6  // H
    } else if c == 73 {
        0x1200  // I
    } else if c == 74 {
        0x001E  // J
    } else if c == 75 {
        0x2470  // K
    } else if c == 76 {
        0x0038  // L
    } else if c == 77 {
        0x0536  // M
    } else if c == 78 {
        0x2136  // N
    } else if c == 79 {
        0x003F  // O
    } else if c == 80 {
        0x00F3  // P
    } else if c == 81 {
        0x203F  // Q
    } else if c == 82 {
        0x20F3  // R
    } else if c == 83 {
        0x00ED  // S
    } else if c == 84 {
        0x1201  // T
    } else if c == 85 {
        0x003E  // U
    } else if c == 86 {
        0x0C30  // V
    } else if c == 87 {
        0x2836  // W
    } else if c == 88 {
        0x2D00  // X
    } else if c == 89 {
        0x1500  // Y
    } else if c == 90 {
        0x0C09  // Z
    } else if c == 91 {
        0x0039  // [
    } else if c == 92 {
        0x2100  // backslash
    } else if c == 93 {
        0x000F  // ]
    } else if c == 94 {
        0x0C03  // ^
    } else if c == 95 {
        0x0008  // _
    } else if c == 96 {
        0x0100  // `
    } else if c == 97 {
        0x1058  // a
    } else if c == 98 {
        0x2078  // b
    } else if c == 99 {
        0x00D8  // c
    } else if c == 100 {
        0x088E  // d
    } else if c == 101 {
        0x0858  // e
    } else if c == 102 {
        0x0071  // f
    } else if c == 103 {
        0x048E  // g
    } else if c == 104 {
        0x1070  // h
    } else if c == 105 {
        0x1000  // i
    } else if c == 106 {
        0x000E  // j
    } else if c == 107 {
        0x3600  // k
    } else if c == 108 {
        0x0030  // l
    } else if c == 109 {
        0x10D4  // m
    } else if c == 110 {
        0x1050  // n
    } else if c == 111 {
        0x00DC  // o
    } else if c == 112 {
        0x0170  // p
    } else if c == 113 {
        0x0486  // q
    } else if c == 114 {
        0x0050  // r
    } else if c == 115 {
        0x2088  // s
    } else if c == 116 {
        0x0078  // t
    } else if c == 117 {
        0x001C  // u
    } else if c == 118 {
        0x2004  // v
    } else if c == 119 {
        0x2814  // w
    } else if c == 120 {
        0x28C0  // x
    } else if c == 121 {
        0x200C  // y
    } else if c == 122 {
        0x0848  // z
    } else if c == 123 {
        0x0949  // {
    } else if c == 124 {
        0x1200  // |
    } else if c == 125 {
        0x2489  // }
    } else if c == 126 {
        0x0520  // ~
    } else {
        0x3FFF
    }
}

} // verus!
