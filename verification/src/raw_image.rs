//! Raw RGBA images, stored bottom row first.
//!
//! Image decoders deliver rows from the top of the picture downwards, while
//! the graphics API places the origin of a texture at its bottom-left corner.
//! A [`RawImage`] therefore holds the rows in reverse order. It can only be
//! built by [`RawImage::from_raw_rgba_reversed`], which checks the length of
//! the pixel buffer against the dimensions and reverses the rows.

use vstd::arithmetic::div_mod::{
    lemma_div_multiples_vanish, lemma_fundamental_div_mod, lemma_fundamental_div_mod_converse,
    lemma_mod_bound,
};
use vstd::arithmetic::mul::{
    lemma_mul_inequality, lemma_mul_is_commutative, lemma_mul_is_distributive_add_other_way,
};
use vstd::prelude::*;

verus! {

/// Mathematical model of a raw image.
pub struct ImageModel {
    pub width: nat,
    pub height: nat,
    pub pixels: Seq<u8>,
}

impl ImageModel {
    /// Bytes in one row.
    pub open spec fn row_len(self) -> int {
        4 * (self.width as int)
    }

    /// The buffer holds exactly `width * height` pixels of four bytes.
    pub open spec fn wf(self) -> bool {
        self.pixels.len() == 4 * self.width * self.height
    }

    /// The bytes of row `y`, counted from the start of the buffer.
    pub open spec fn row(self, y: int) -> Seq<u8> {
        self.pixels.subrange(y * self.row_len(), (y + 1) * self.row_len())
    }

    /// Both dimensions equal `size`.
    pub open spec fn is_square_of(self, size: nat) -> bool {
        self.width == size && self.height == size
    }
}

/// `pixels`, cut into rows of `row_len` bytes, with the rows in reverse
/// order. The bytes inside a row keep their order.
pub open spec fn flip_rows(pixels: Seq<u8>, row_len: int) -> Seq<u8> {
    Seq::new(
        pixels.len(),
        |i: int| pixels[((pixels.len() as int) / row_len - 1 - i / row_len) * row_len + i % row_len],
    )
}

/// The model of the image that a top-down RGBA buffer of the given
/// dimensions becomes.
pub open spec fn reversed_image(width: nat, height: nat, data: Seq<u8>) -> ImageModel {
    ImageModel { width, height, pixels: flip_rows(data, 4 * (width as int)) }
}

/// Position `x` of row `y` lies inside a buffer of `rows` rows, and dividing
/// its index by the row length gives back `y` and `x`.
pub proof fn lemma_row_index(rows: int, row_len: int, y: int, x: int)
    requires
        0 <= y < rows,
        0 <= x < row_len,
    ensures
        0 <= y * row_len + x < rows * row_len,
        (y * row_len + x) / row_len == y,
        (y * row_len + x) % row_len == x,
        (rows * row_len) / row_len == rows,
{
    lemma_mul_is_commutative(y, row_len);
    lemma_fundamental_div_mod_converse(y * row_len + x, row_len, y, x);
    lemma_div_multiples_vanish(rows, row_len);
    lemma_mul_is_commutative(rows, row_len);
    assert(y * row_len + x < rows * row_len) by {
        lemma_mul_inequality(y + 1, rows, row_len);
        lemma_mul_is_distributive_add_other_way(row_len, y, 1);
    }
    assert(0 <= y * row_len) by (nonlinear_arith)
        requires
            0 <= y,
            0 <= row_len,
    ;
}

/// Byte `x` of row `y` of the flipped buffer is byte `x` of row
/// `rows - 1 - y` of the buffer itself.
pub proof fn lemma_flip_rows_at(pixels: Seq<u8>, rows: int, row_len: int, y: int, x: int)
    requires
        pixels.len() == rows * row_len,
        0 <= y < rows,
        0 <= x < row_len,
    ensures
        0 <= y * row_len + x < pixels.len(),
        0 <= (rows - 1 - y) * row_len + x < pixels.len(),
        flip_rows(pixels, row_len)[y * row_len + x] == pixels[(rows - 1 - y) * row_len + x],
{
    lemma_row_index(rows, row_len, y, x);
    lemma_row_index(rows, row_len, rows - 1 - y, x);
}

/// Row `y` of the flipped buffer is row `rows - 1 - y` of the buffer itself.
pub proof fn lemma_flip_rows_reverses_rows(pixels: Seq<u8>, rows: int, row_len: int, y: int)
    requires
        pixels.len() == rows * row_len,
        0 <= y < rows,
        0 <= row_len,
    ensures
        flip_rows(pixels, row_len).subrange(y * row_len, (y + 1) * row_len) == pixels.subrange(
            (rows - 1 - y) * row_len,
            (rows - y) * row_len,
        ),
{
    let flipped = flip_rows(pixels, row_len);
    let mirror = rows - 1 - y;
    assert((y + 1) * row_len == y * row_len + row_len) by (nonlinear_arith);
    assert((rows - y) * row_len == mirror * row_len + row_len) by (nonlinear_arith)
        requires
            mirror == rows - 1 - y,
    ;
    if row_len > 0 {
        lemma_row_index(rows, row_len, y, row_len - 1);
        lemma_row_index(rows, row_len, mirror, row_len - 1);
        lemma_row_index(rows, row_len, y, 0);
        lemma_row_index(rows, row_len, mirror, 0);
        let a = flipped.subrange(y * row_len, (y + 1) * row_len);
        let b = pixels.subrange(mirror * row_len, (rows - y) * row_len);
        assert forall|x: int| 0 <= x < row_len implies a[x] == b[x] by {
            lemma_flip_rows_at(pixels, rows, row_len, y, x);
        }
    } else {
        assert(pixels.len() == 0) by (nonlinear_arith)
            requires
                pixels.len() == rows * row_len,
                row_len == 0,
        ;
        assert(flipped.subrange(y * row_len, (y + 1) * row_len) =~= pixels.subrange(
            mirror * row_len,
            (rows - y) * row_len,
        ));
    }
}

/// Flipping the rows twice gives back the buffer that was flipped first.
pub proof fn lemma_flip_rows_is_an_involution(pixels: Seq<u8>, rows: int, row_len: int)
    requires
        pixels.len() == rows * row_len,
        0 <= rows,
        0 < row_len,
    ensures
        flip_rows(flip_rows(pixels, row_len), row_len) == pixels,
{
    let once = flip_rows(pixels, row_len);
    let twice = flip_rows(once, row_len);
    assert forall|i: int| 0 <= i < pixels.len() implies twice[i] == pixels[i] by {
        let y = i / row_len;
        let x = i % row_len;
        lemma_index_splits(rows, row_len, i);
        lemma_flip_rows_at(once, rows, row_len, y, x);
        lemma_flip_rows_at(pixels, rows, row_len, rows - 1 - y, x);
    }
}

/// An index into a buffer of `rows` rows splits into a row and a position
/// inside the row.
pub proof fn lemma_index_splits(rows: int, row_len: int, i: int)
    requires
        0 < row_len,
        0 <= i < rows * row_len,
    ensures
        0 <= i / row_len < rows,
        0 <= i % row_len < row_len,
        i == (i / row_len) * row_len + i % row_len,
{
    let y = i / row_len;
    lemma_fundamental_div_mod(i, row_len);
    lemma_mod_bound(i, row_len);
    lemma_mul_is_commutative(y, row_len);
    assert(0 <= y < rows) by (nonlinear_arith)
        requires
            0 < row_len,
            0 <= i < rows * row_len,
            i == y * row_len + i % row_len,
            0 <= i % row_len < row_len,
    ;
}

/// A raw RGBA image whose rows run from the bottom of the picture to its top.
#[derive(Debug, PartialEq, Eq)]
pub struct RawImage {
    width: u32,
    height: u32,
    pixels: Vec<u8>,
}

impl View for RawImage {
    type V = ImageModel;

    closed spec fn view(&self) -> ImageModel {
        ImageModel {
            width: self.width as nat,
            height: self.height as nat,
            pixels: self.pixels@,
        }
    }
}

impl Clone for RawImage {
    fn clone(&self) -> (copy: Self)
        ensures
            copy@ == self@,
    {
        proof {
            use_type_invariant(self);
        }
        let pixels = self.pixels.clone();
        RawImage { width: self.width, height: self.height, pixels }
    }
}

impl RawImage {
    #[verifier::type_invariant]
    spec fn well_formed(self) -> bool {
        self.pixels@.len() == 4 * self.width * self.height
    }

    /// Builds an image from a buffer of interleaved RGBA bytes whose rows run
    /// from the top of the picture downwards, reversing the order of the rows.
    /// Returns `None` when the buffer does not hold exactly
    /// `width * height` pixels.
    pub fn from_raw_rgba_reversed(data: Vec<u8>, dimensions: (u32, u32)) -> (image: Option<
        RawImage,
    >)
        ensures
            image is Some <==> data@.len() == 4 * dimensions.0 * dimensions.1,
            image matches Some(built) ==> built@ == reversed_image(
                dimensions.0 as nat,
                dimensions.1 as nat,
                data@,
            ) && built@.wf(),
    {
        let width: u32 = dimensions.0;
        let height: u32 = dimensions.1;
        assert(4 * (width as u128) * (height as u128) <= u128::MAX) by (nonlinear_arith)
            requires
                width <= u32::MAX,
                height <= u32::MAX,
        ;
        let expected: u128 = 4 * (width as u128) * (height as u128);
        if data.len() as u128 != expected {
            return None;
        }
        if width == 0 || height == 0 {
            assert(data@.len() == 0) by (nonlinear_arith)
                requires
                    data@.len() == 4 * width * height,
                    width == 0 || height == 0,
            ;
            assert(flip_rows(data@, 4 * width) =~= data@);
            return Some(RawImage { width, height, pixels: data });
        }
        let rows: usize = height as usize;
        let row_len: usize = data.len() / rows;
        proof {
            assert(4 * width * height == rows * (4 * width)) by (nonlinear_arith)
                requires
                    rows == height,
            ;
            lemma_div_multiples_vanish(4 * width, rows as int);
            lemma_mul_is_commutative(rows as int, 4 * width);
        }
        let mut pixels: Vec<u8> = Vec::with_capacity(data.len());
        let mut y: usize = 0;
        while y < rows
            invariant
                y <= rows,
                0 < row_len,
                data@.len() == rows * row_len,
                data@.len() <= usize::MAX,
                pixels@.len() == y * row_len,
                forall|k: int|
                    0 <= k < pixels@.len() ==> pixels@[k] == #[trigger] flip_rows(
                        data@,
                        row_len as int,
                    )[k],
            decreases rows - y,
        {
            proof {
                lemma_row_index(rows as int, row_len as int, rows - 1 - y, row_len - 1);
                assert(0 <= (rows - 1 - y) * row_len) by (nonlinear_arith)
                    requires
                        0 <= rows - 1 - y,
                        0 < row_len,
                ;
            }
            let start: usize = (rows - 1 - y) * row_len;
            let mut x: usize = 0;
            while x < row_len
                invariant
                    y < rows,
                    x <= row_len,
                    0 < row_len,
                    data@.len() == rows * row_len,
                    data@.len() <= usize::MAX,
                    start == (rows - 1 - y) * row_len,
                    start + row_len <= data@.len(),
                    pixels@.len() == y * row_len + x,
                    forall|k: int|
                        0 <= k < pixels@.len() ==> pixels@[k] == #[trigger] flip_rows(
                            data@,
                            row_len as int,
                        )[k],
                decreases row_len - x,
            {
                proof {
                    lemma_flip_rows_at(data@, rows as int, row_len as int, y as int, x as int);
                }
                pixels.push(data[start + x]);
                x = x + 1;
            }
            proof {
                lemma_mul_is_distributive_add_other_way(row_len as int, y as int, 1);
            }
            y = y + 1;
        }
        assert(pixels@ =~= flip_rows(data@, row_len as int));
        Some(RawImage { width, height, pixels })
    }

    /// Pixels in a row.
    pub fn width(&self) -> (w: u32)
        ensures
            w == self@.width,
    {
        self.width
    }

    /// Rows in the image.
    pub fn height(&self) -> (h: u32)
        ensures
            h == self@.height,
    {
        self.height
    }

    /// The pixel bytes, bottom row first.
    pub fn pixels(&self) -> (bytes: &Vec<u8>)
        ensures
            bytes@ == self@.pixels,
            bytes@.len() == 4 * self@.width * self@.height,
    {
        proof {
            use_type_invariant(self);
        }
        &self.pixels
    }

    /// Gives up the image for its pixel bytes, bottom row first.
    pub fn into_pixels(self) -> (bytes: Vec<u8>)
        ensures
            bytes@ == self@.pixels,
            bytes@.len() == 4 * self@.width * self@.height,
    {
        proof {
            use_type_invariant(&self);
        }
        self.pixels
    }

    /// Whether both the width and the height equal `size`.
    pub fn is_square_of(&self, size: u32) -> (square: bool)
        ensures
            square == self@.is_square_of(size as nat),
    {
        self.width == size && self.height == size
    }
}

} // verus!
