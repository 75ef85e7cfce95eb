//! Two pictures made by hand, one for each plane, to try the panel with: a pixel in the top
//! left corner and a short dotted stroke in each of the first four rows.
use crate::bitmap_buffer::BitmapBuffer;
use crate::epd_2in66b::{BUFFER_SIZE, HEIGHT, WIDTH};
use vstd::prelude::*;

verus! {

/// The dotted stroke: the first, third and fifth pixel of a byte.
pub const STROKE: u8 = 0b10101000;

/// A plane that is empty but for the corner pixel and a stroke in byte `first` and in every
/// nineteenth byte after it, four strokes in all: one below the other, a row being nineteen
/// bytes long.
pub open spec fn pattern_of(first: int) -> Seq<u8> {
    Seq::new(
        5624,
        |i: int|
            if i == 0 {
                0x80u8
            } else if i == first || i == first + 19 || i == first + 38 || i == first + 57 {
                0b10101000u8
            } else {
                0u8
            },
    )
}

/// The picture for the black/white plane: strokes in the second byte of the rows.
pub fn create_fbb() -> (fbb: BitmapBuffer<WIDTH, HEIGHT, BUFFER_SIZE>)
    ensures
        fbb@ == pattern_of(1),
{
    let mut fbb = BitmapBuffer::<WIDTH, HEIGHT, BUFFER_SIZE>::new();

    proof {
        assert(0u8 | (1u8 << 7) == 0x80u8) by (bit_vector);
    }
    fbb.set_pixel(0, 0);
    fbb.set_pixel(152, 0);
    fbb.set_pixel(304, 0);
    fbb.set_pixel(456, 0);
    fbb.set_byte(1, STROKE);
    fbb.set_byte(20, STROKE);
    fbb.set_byte(39, STROKE);
    fbb.set_byte(58, STROKE);
    assert(fbb@ =~= pattern_of(1));

    fbb
}

/// The picture for the chromatic plane: strokes in the third byte of the rows.
pub fn create_fbc() -> (fbc: BitmapBuffer<WIDTH, HEIGHT, BUFFER_SIZE>)
    ensures
        fbc@ == pattern_of(2),
{
    let mut fbc = BitmapBuffer::<WIDTH, HEIGHT, BUFFER_SIZE>::new();

    proof {
        assert(0u8 | (1u8 << 7) == 0x80u8) by (bit_vector);
    }
    fbc.set_pixel(0, 0);
    fbc.set_pixel(152, 0);
    fbc.set_pixel(304, 0);
    fbc.set_pixel(456, 0);
    fbc.set_byte(2, STROKE);
    fbc.set_byte(21, STROKE);
    fbc.set_byte(40, STROKE);
    fbc.set_byte(59, STROKE);
    assert(fbc@ =~= pattern_of(2));

    fbc
}

} // verus!
