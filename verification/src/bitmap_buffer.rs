//! A fixed-size raster that packs one pixel into one bit.
//!
//! Pixels are stored row by row. Pixel `(x, y)` of a raster `width` pixels wide lives in byte
//! `(y * width + x) / 8`, at bit `7 - x % 8`: the leftmost pixel of a byte is its most
//! significant bit.
use vstd::prelude::*;

verus! {

/// The index of the byte that holds pixel `(x, y)` in a raster `width` pixels wide.
pub open spec fn byte_index_of(width: int, x: int, y: int) -> int {
    (y * width + x) / 8
}

/// The position, within its byte, of the bit that holds a pixel in column `x`.
pub open spec fn bit_index_of(x: int) -> int {
    7 - x % 8
}

/// The byte in which only the bit of a pixel in column `x` is set.
pub open spec fn bit_mask_of(x: int) -> u8 {
    1u8 << bit_index_of(x)
}

/// The raster `plane` with the bit of pixel `(x, y)` set.
pub open spec fn plane_set(plane: Seq<u8>, width: int, x: int, y: int) -> Seq<u8> {
    let at = byte_index_of(width, x, y);
    plane.update(at, plane[at] | bit_mask_of(x))
}

/// The raster `plane` with the bit of pixel `(x, y)` cleared.
pub open spec fn plane_clear(plane: Seq<u8>, width: int, x: int, y: int) -> Seq<u8> {
    let at = byte_index_of(width, x, y);
    plane.update(at, plane[at] & !bit_mask_of(x))
}

/// The raster `plane` with the bit of pixel `(x, y)` made equal to `bit`.
pub open spec fn plane_write(plane: Seq<u8>, width: int, x: int, y: int, bit: bool) -> Seq<u8> {
    if bit {
        plane_set(plane, width, x, y)
    } else {
        plane_clear(plane, width, x, y)
    }
}

/// Whether the bit of pixel `(x, y)` is set in the raster `plane`.
pub open spec fn plane_pixel(plane: Seq<u8>, width: int, x: int, y: int) -> bool {
    plane[byte_index_of(width, x, y)] & bit_mask_of(x) != 0
}

/// The number of bytes of a raster of `width` by `height` pixels: whole bytes per row.
pub open spec fn plane_len(width: int, height: int) -> int {
    (width + 7) / 8 * height
}

/// A packed raster of `WIDTH` by `HEIGHT` pixels, one bit each, in `BUFFER_SIZE` bytes.
pub struct BitmapBuffer<const WIDTH: usize, const HEIGHT: usize, const BUFFER_SIZE: usize> {
    pub buffer: [u8; BUFFER_SIZE],
}

impl<const WIDTH: usize, const HEIGHT: usize, const BUFFER_SIZE: usize> View for BitmapBuffer<
    WIDTH,
    HEIGHT,
    BUFFER_SIZE,
> {
    type V = Seq<u8>;

    open spec fn view(&self) -> Seq<u8> {
        self.buffer@
    }
}

fn byte_index(width: usize, x: usize, y: usize) -> (index: usize)
    requires
        y * width + x <= usize::MAX,
    ensures
        index == byte_index_of(width as int, x as int, y as int),
{
    (y * width + x) / 8
}

impl<const WIDTH: usize, const HEIGHT: usize, const BUFFER_SIZE: usize> BitmapBuffer<
    WIDTH,
    HEIGHT,
    BUFFER_SIZE,
> {
    /// The buffer has whole bytes for every row, and every pixel's number fits the machine word.
    pub open spec fn well_sized() -> bool {
        &&& WIDTH * HEIGHT <= usize::MAX
        &&& BUFFER_SIZE == plane_len(WIDTH as int, HEIGHT as int)
    }

    /// A raster with every bit clear.
    pub fn new() -> (plane: Self)
        ensures
            plane@ == Seq::new(BUFFER_SIZE as nat, |i: int| 0u8),
    {
        BitmapBuffer { buffer: [0x00;BUFFER_SIZE] }
    }

    /// Sets the bit of pixel `(x, y)`; a pixel outside the raster is ignored.
    pub fn set_pixel(&mut self, x: usize, y: usize)
        requires
            Self::well_sized(),
        ensures
            final(self)@ == if x < WIDTH && y < HEIGHT {
                plane_set(old(self)@, WIDTH as int, x as int, y as int)
            } else {
                old(self)@
            },
    {
        if x < WIDTH && y < HEIGHT {
            proof {
                lemma_index_in_range(WIDTH as int, HEIGHT as int, x as int, y as int);
            }
            let byte_index: usize = byte_index(WIDTH, x, y);
            let bit_index: usize = 7 - x % 8;
            self.buffer[byte_index] |= 1 << bit_index;
        }
    }

    /// Clears the bit of pixel `(x, y)`; a pixel outside the raster is ignored.
    pub fn clear_pixel(&mut self, x: usize, y: usize)
        requires
            Self::well_sized(),
        ensures
            final(self)@ == if x < WIDTH && y < HEIGHT {
                plane_clear(old(self)@, WIDTH as int, x as int, y as int)
            } else {
                old(self)@
            },
    {
        if x < WIDTH && y < HEIGHT {
            proof {
                lemma_index_in_range(WIDTH as int, HEIGHT as int, x as int, y as int);
            }
            let byte_index: usize = byte_index(WIDTH, x, y);
            let bit_index: usize = 7 - x % 8;
            self.buffer[byte_index] &= !(1 << bit_index);
        }
    }

    /// Overwrites every byte with `value`.
    pub fn fill(&mut self, value: u8)
        ensures
            final(self)@ == Seq::new(BUFFER_SIZE as nat, |i: int| value),
    {
        for i in 0..BUFFER_SIZE
            invariant
                forall|j: int| 0 <= j < i ==> self.buffer@[j] == value,
        {
            self.buffer[i] = value;
        }
    }

    /// Overwrites the byte at `byte_index` with `value`; an index past the end is ignored.
    pub fn set_byte(&mut self, byte_index: usize, value: u8)
        ensures
            final(self)@ == if byte_index < BUFFER_SIZE {
                old(self)@.update(byte_index as int, value)
            } else {
                old(self)@
            },
    {
        if byte_index < BUFFER_SIZE {
            self.buffer[byte_index] = value;
        }
    }

    /// Clears every bit.
    pub fn clear(&mut self)
        ensures
            final(self)@ == Seq::new(BUFFER_SIZE as nat, |i: int| 0u8),
    {
        for i in 0..BUFFER_SIZE
            invariant
                forall|j: int| 0 <= j < i ==> self.buffer@[j] == 0u8,
        {
            self.buffer[i] = 0;
        }
    }
}

/// Every pixel inside a raster has its byte inside the raster's buffer, and its number is less
/// than the number of pixels.
pub proof fn lemma_index_in_range(width: int, height: int, x: int, y: int)
    requires
        0 <= x < width,
        0 <= y < height,
    ensures
        0 <= y * width + x < width * height,
        0 <= byte_index_of(width, x, y) < plane_len(width, height),
{
    let stride = (width + 7) / 8;
    assert(0 <= y * width + x < width * height) by (nonlinear_arith)
        requires
            0 <= x < width,
            0 <= y < height,
    ;
    assert(width * height <= 8 * (stride * height)) by (nonlinear_arith)
        requires
            0 <= width <= 8 * stride,
            0 <= height,
    ;
}

/// What setting and clearing one bit does to a byte: the bit reads as written, and each other
/// bit of the byte reads as before.
pub proof fn lemma_bit_write(byte: u8, bit: u8, other: u8)
    requires
        bit < 8,
        other < 8,
    ensures
        (byte | (1u8 << bit)) & (1u8 << bit) != 0,
        (byte & !(1u8 << bit)) & (1u8 << bit) == 0,
        other != bit ==> (byte | (1u8 << bit)) & (1u8 << other) == byte & (1u8 << other),
        other != bit ==> (byte & !(1u8 << bit)) & (1u8 << other) == byte & (1u8 << other),
{
    assert((byte | (1u8 << bit)) & (1u8 << bit) != 0) by (bit_vector)
        requires
            bit < 8,
    ;
    assert((byte & !(1u8 << bit)) & (1u8 << bit) == 0) by (bit_vector)
        requires
            bit < 8,
    ;
    if other != bit {
        assert((byte | (1u8 << bit)) & (1u8 << other) == byte & (1u8 << other)) by (bit_vector)
            requires
                bit < 8,
                other < 8,
                other != bit,
        ;
        assert((byte & !(1u8 << bit)) & (1u8 << other) == byte & (1u8 << other)) by (bit_vector)
            requires
                bit < 8,
                other < 8,
                other != bit,
        ;
    }
}

/// A pixel of the raster that was set reads as set, and one that was cleared reads as clear.
pub proof fn lemma_pixel_reads_as_written(plane: Seq<u8>, width: int, height: int, x: int, y: int)
    requires
        plane.len() == plane_len(width, height),
        0 <= x < width,
        0 <= y < height,
    ensures
        plane_pixel(plane_set(plane, width, x, y), width, x, y),
        !plane_pixel(plane_clear(plane, width, x, y), width, x, y),
        forall|bit: bool| plane_pixel(#[trigger] plane_write(plane, width, x, y, bit), width, x, y) == bit,
{
    lemma_index_in_range(width, height, x, y);
    let at = byte_index_of(width, x, y);
    let bit = bit_index_of(x) as u8;
    lemma_bit_write(plane[at], bit, bit);
}

/// Setting or clearing a pixel keeps the length of the raster and every byte but the pixel's
/// own.
pub proof fn lemma_pixel_write_keeps_other_bytes(plane: Seq<u8>, width: int, x: int, y: int)
    requires
        0 <= byte_index_of(width, x, y) < plane.len(),
    ensures
        plane_set(plane, width, x, y).len() == plane.len(),
        plane_clear(plane, width, x, y).len() == plane.len(),
        forall|i: int|
            0 <= i < plane.len() && i != byte_index_of(width, x, y) ==> #[trigger] plane_set(
                plane,
                width,
                x,
                y,
            )[i] == plane[i],
        forall|i: int|
            0 <= i < plane.len() && i != byte_index_of(width, x, y) ==> #[trigger] plane_clear(
                plane,
                width,
                x,
                y,
            )[i] == plane[i],
{
}

/// Setting or clearing a pixel keeps, in the pixel's own byte, every bit but the pixel's own.
pub proof fn lemma_pixel_write_keeps_other_bits(
    plane: Seq<u8>,
    width: int,
    x: int,
    y: int,
    other: u8,
)
    requires
        0 <= x,
        0 <= byte_index_of(width, x, y) < plane.len(),
        other < 8,
        other != bit_index_of(x),
    ensures
        plane_set(plane, width, x, y)[byte_index_of(width, x, y)] & (1u8 << other)
            == plane[byte_index_of(width, x, y)] & (1u8 << other),
        plane_clear(plane, width, x, y)[byte_index_of(width, x, y)] & (1u8 << other)
            == plane[byte_index_of(width, x, y)] & (1u8 << other),
{
    let at = byte_index_of(width, x, y);
    lemma_bit_write(plane[at], bit_index_of(x) as u8, other);
}

/// In a raster whose width is a multiple of eight, two different pixels never share a bit.
pub proof fn lemma_pixels_are_apart(width: int, height: int, x1: int, y1: int, x2: int, y2: int)
    requires
        width % 8 == 0,
        0 <= x1 < width,
        0 <= y1 < height,
        0 <= x2 < width,
        0 <= y2 < height,
        (x1, y1) != (x2, y2),
    ensures
        byte_index_of(width, x1, y1) != byte_index_of(width, x2, y2) || bit_index_of(x1)
            != bit_index_of(x2),
{
    let stride = width / 8;
    assert(width == 8 * stride);
    assert(y1 * width + x1 == 8 * (y1 * stride + x1 / 8) + x1 % 8) by (nonlinear_arith)
        requires
            width == 8 * stride,
    ;
    assert(y2 * width + x2 == 8 * (y2 * stride + x2 / 8) + x2 % 8) by (nonlinear_arith)
        requires
            width == 8 * stride,
    ;
    assert(byte_index_of(width, x1, y1) == y1 * stride + x1 / 8);
    assert(byte_index_of(width, x2, y2) == y2 * stride + x2 / 8);
    if y1 * stride + x1 / 8 == y2 * stride + x2 / 8 && x1 % 8 == x2 % 8 {
        assert(y1 == y2) by (nonlinear_arith)
            requires
                y1 * stride + x1 / 8 == y2 * stride + x2 / 8,
                0 <= x1 / 8 < stride,
                0 <= x2 / 8 < stride,
        ;
        assert(false);
    }
}

/// In a raster whose width is a multiple of eight, setting or clearing one pixel leaves every
/// other pixel as it was.
pub proof fn lemma_pixel_write_keeps_others(
    plane: Seq<u8>,
    width: int,
    height: int,
    x: int,
    y: int,
    x2: int,
    y2: int,
)
    requires
        width % 8 == 0,
        plane.len() == plane_len(width, height),
        0 <= x < width,
        0 <= y < height,
        0 <= x2 < width,
        0 <= y2 < height,
        (x, y) != (x2, y2),
    ensures
        plane_pixel(plane_set(plane, width, x, y), width, x2, y2) == plane_pixel(
            plane,
            width,
            x2,
            y2,
        ),
        plane_pixel(plane_clear(plane, width, x, y), width, x2, y2) == plane_pixel(
            plane,
            width,
            x2,
            y2,
        ),
        forall|bit: bool|
            plane_pixel(#[trigger] plane_write(plane, width, x, y, bit), width, x2, y2)
                == plane_pixel(plane, width, x2, y2),
{
    lemma_index_in_range(width, height, x, y);
    lemma_index_in_range(width, height, x2, y2);
    lemma_pixels_are_apart(width, height, x, y, x2, y2);
    let at = byte_index_of(width, x, y);
    if byte_index_of(width, x2, y2) == at {
        lemma_bit_write(plane[at], bit_index_of(x) as u8, bit_index_of(x2) as u8);
    }
}

/// In an empty raster whose width is a multiple of eight, a pixel that was set is the only
/// one that reads as set.
pub proof fn lemma_single_pixel(width: int, height: int, x: int, y: int, x2: int, y2: int)
    requires
        width % 8 == 0,
        0 <= x < width,
        0 <= y < height,
        0 <= x2 < width,
        0 <= y2 < height,
    ensures
        plane_pixel(
            plane_set(Seq::new(plane_len(width, height) as nat, |i: int| 0u8), width, x, y),
            width,
            x2,
            y2,
        ) <==> (x2, y2) == (x, y),
{
    let empty = Seq::new(plane_len(width, height) as nat, |i: int| 0u8);
    lemma_index_in_range(width, height, x, y);
    lemma_index_in_range(width, height, x2, y2);
    if (x2, y2) == (x, y) {
        lemma_pixel_reads_as_written(empty, width, height, x, y);
    } else {
        lemma_pixel_write_keeps_others(empty, width, height, x, y, x2, y2);
        let mask = bit_mask_of(x2);
        assert(0u8 & mask == 0) by (bit_vector);
    }
}

} // verus!
