//! Row layout of an image that is copied into a buffer whose rows must start
//! on an aligned byte offset, and the way back from such a buffer to the
//! tightly packed pixels.

use vstd::prelude::*;
use vstd::arithmetic::div_mod::{
    lemma_fundamental_div_mod, lemma_fundamental_div_mod_converse, lemma_mod_bound,
};
use vstd::arithmetic::mul::{
    lemma_mul_inequality, lemma_mul_is_commutative, lemma_mul_is_distributive_add,
    lemma_mul_nonnegative,
};

verus! {

/// Bytes taken by one pixel of an 8-bit RGBA image.
pub const BYTES_PER_PIXEL: u64 = 4;

/// Byte boundary on which every row of a buffer copy must start.
pub const COPY_BYTES_PER_ROW_ALIGNMENT: u64 = 256;

/// Bytes of one row of `width` pixels, without padding.
pub open spec fn unpadded_row_bytes(width: int) -> int {
    width * 4
}

/// Bytes to add to a row of `unpadded` bytes to reach the next multiple of `align`.
pub open spec fn row_padding(unpadded: int, align: int) -> int {
    (align - unpadded % align) % align
}

/// Bytes of one row of `width` pixels, padded to the copy alignment.
pub open spec fn padded_row_bytes(width: int) -> int {
    unpadded_row_bytes(width) + row_padding(unpadded_row_bytes(width), 256)
}

/// The `len` bytes of `s` that start at row `row` of a layout with `stride` bytes per row.
pub open spec fn row_of(s: Seq<u8>, row: int, stride: int, len: int) -> Seq<u8> {
    s.subrange(row * stride, row * stride + len)
}

/// The tightly packed image held in `data`: `rows` rows, each the first
/// `unpadded` bytes of a row of `padded` bytes.
pub open spec fn unpadded_image(data: Seq<u8>, rows: nat, padded: nat, unpadded: nat) -> Seq<u8> {
    Seq::new(
        rows * unpadded,
        |i: int| data[(i / unpadded as int) * padded + i % unpadded as int],
    )
}

/// A padded row is the least multiple of the alignment that holds the row:
/// it is aligned, no shorter than the row, and less than one alignment longer.
pub proof fn lemma_padded_row_aligned(width: int)
    requires
        0 <= width,
    ensures
        padded_row_bytes(width) % 256 == 0,
        padded_row_bytes(width) >= unpadded_row_bytes(width),
        padded_row_bytes(width) - unpadded_row_bytes(width) < 256,
        unpadded_row_bytes(width) % 256 == 0 ==> padded_row_bytes(width) == unpadded_row_bytes(
            width,
        ),
{
}

/// Padding for any alignment: the padded length is a multiple of `align`,
/// and the padding is less than `align`.
pub proof fn lemma_row_padding_aligns(unpadded: int, align: int)
    requires
        0 <= unpadded,
        0 < align,
    ensures
        0 <= row_padding(unpadded, align) < align,
        (unpadded + row_padding(unpadded, align)) % align == 0,
{
    let m = unpadded % align;
    lemma_mod_bound(unpadded, align);
    lemma_fundamental_div_mod(unpadded, align);
    let q = unpadded / align;
    if m == 0 {
        assert(align % align == 0) by {
            lemma_fundamental_div_mod_converse(align, align, 1, 0);
        }
        assert(row_padding(unpadded, align) == 0);
    } else {
        assert((align - m) % align == align - m) by {
            lemma_fundamental_div_mod_converse(align - m, align, 0, align - m);
        }
        assert(unpadded + (align - m) == (q + 1) * align) by {
            lemma_mul_is_distributive_add(align, q, 1);
            lemma_mul_is_commutative(align, q + 1);
        }
        lemma_fundamental_div_mod_converse(unpadded + (align - m), align, q + 1, 0);
    }
}

/// Byte `row * unpadded + col` of the packed image is byte `row * padded + col` of the data.
pub proof fn lemma_unpadded_image_at(
    data: Seq<u8>,
    rows: nat,
    padded: nat,
    unpadded: nat,
    row: int,
    col: int,
)
    requires
        0 <= row < rows,
        0 <= col < unpadded,
    ensures
        0 <= row * unpadded + col < rows * unpadded,
        unpadded_image(data, rows, padded, unpadded)[row * unpadded + col] == data[row * padded
            + col],
{
    let u = unpadded as int;
    lemma_mul_nonnegative(row, u);
    assert(row * u + col < rows * u) by {
        lemma_mul_inequality(row + 1, rows as int, u);
        lemma_mul_is_distributive_add(u, row, 1);
        lemma_mul_is_commutative(u, row + 1);
        lemma_mul_is_commutative(u, row);
    }
    lemma_mul_is_commutative(row, u);
    lemma_fundamental_div_mod_converse(row * u + col, u, row, col);
}

/// Row `row` of the packed image is the start of row `row` of the data.
pub proof fn lemma_unpadded_image_row(
    data: Seq<u8>,
    rows: nat,
    padded: nat,
    unpadded: nat,
    row: int,
)
    requires
        0 <= row < rows,
        unpadded <= padded,
        data.len() == rows * padded,
    ensures
        row_of(unpadded_image(data, rows, padded, unpadded), row, unpadded as int, unpadded as int)
            == row_of(data, row, padded as int, unpadded as int),
{
    let image = unpadded_image(data, rows, padded, unpadded);
    let u = unpadded as int;
    let p = padded as int;
    lemma_mul_nonnegative(row, u);
    lemma_mul_nonnegative(row, p);
    assert(row * u + u <= rows * u) by {
        lemma_mul_inequality(row + 1, rows as int, u);
        lemma_mul_is_distributive_add(u, row, 1);
        lemma_mul_is_commutative(u, row + 1);
        lemma_mul_is_commutative(u, row);
    }
    assert(row * p + p <= rows * p) by {
        lemma_mul_inequality(row + 1, rows as int, p);
        lemma_mul_is_distributive_add(p, row, 1);
        lemma_mul_is_commutative(p, row + 1);
        lemma_mul_is_commutative(p, row);
    }
    let a = row_of(image, row, u, u);
    let b = row_of(data, row, p, u);
    assert(a.len() == b.len());
    assert forall|c: int| 0 <= c < u implies a[c] == b[c] by {
        lemma_unpadded_image_at(data, rows, padded, unpadded, row, c);
    }
    assert(a =~= b);
}

/// Sizes of an RGBA image of a given width and height, as it lies in a
/// buffer with aligned rows.
#[derive(Clone, Copy, Debug, PartialEq, Eq, Structural)]
pub struct BufferDimensions {
    pub width: u32,
    pub height: u32,
    pub unpadded_bytes_per_row: u64,
    pub padded_bytes_per_row: u64,
}

impl BufferDimensions {
    /// The byte counts are those that the width calls for.
    pub open spec fn wf(&self) -> bool {
        &&& self.unpadded_bytes_per_row == unpadded_row_bytes(self.width as int)
        &&& self.padded_bytes_per_row == padded_row_bytes(self.width as int)
    }

    /// Bytes of the whole padded image.
    pub open spec fn spec_buffer_size(&self) -> int {
        self.padded_bytes_per_row * self.height
    }

    /// The layout of an image of `width` by `height` pixels.
    pub fn new(width: u32, height: u32) -> (dims: Self)
        ensures
            dims.wf(),
            dims.width == width,
            dims.height == height,
            dims.padded_bytes_per_row % 256 == 0,
            dims.padded_bytes_per_row >= dims.unpadded_bytes_per_row,
            dims.padded_bytes_per_row - dims.unpadded_bytes_per_row < 256,
    {
        let unpadded: u64 = width as u64 * BYTES_PER_PIXEL;
        let padding: u64 = (COPY_BYTES_PER_ROW_ALIGNMENT - unpadded
            % COPY_BYTES_PER_ROW_ALIGNMENT) % COPY_BYTES_PER_ROW_ALIGNMENT;
        BufferDimensions {
            width,
            height,
            unpadded_bytes_per_row: unpadded,
            padded_bytes_per_row: unpadded + padding,
        }
    }

    /// Whether the byte counts are those that the width calls for.
    pub fn is_valid(&self) -> (valid: bool)
        ensures
            valid == self.wf(),
    {
        let expected = BufferDimensions::new(self.width, self.height);
        self.unpadded_bytes_per_row == expected.unpadded_bytes_per_row
            && self.padded_bytes_per_row == expected.padded_bytes_per_row
    }

    /// Bytes of the buffer that holds the padded image, where that count fits in 64 bits.
    pub fn buffer_size(&self) -> (size: Option<u64>)
        ensures
            size == if self.spec_buffer_size() <= u64::MAX {
                Some(self.spec_buffer_size() as u64)
            } else {
                None::<u64>
            },
    {
        self.padded_bytes_per_row.checked_mul(self.height as u64)
    }

    /// Copies the pixels out of a padded buffer, row by row, leaving the
    /// padding behind. `None` when the byte counts are not those of the
    /// width, or when `data` is not a buffer of this layout.
    pub fn strip_row_padding(&self, data: &[u8]) -> (pixels: Option<Vec<u8>>)
        ensures
            pixels is Some <==> self.wf() && data@.len() == self.spec_buffer_size(),
            pixels matches Some(p) ==> p@ == unpadded_image(
                data@,
                self.height as nat,
                self.padded_bytes_per_row as nat,
                self.unpadded_bytes_per_row as nat,
            ),
    {
        if !self.is_valid() {
            return None;
        }
        let len: usize = data.len();
        let size = match self.buffer_size() {
            Some(size) => size,
            None => {
                return None;
            },
        };
        if len as u64 != size {
            return None;
        }
        let ghost rows = self.height as nat;
        let ghost p = self.padded_bytes_per_row as nat;
        let ghost u = self.unpadded_bytes_per_row as nat;
        proof {
            lemma_padded_row_aligned(self.width as int);
        }
        let mut out: Vec<u8> = Vec::new();
        if self.height == 0 {
            assert(out@ =~= unpadded_image(data@, rows, p, u));
            return Some(out);
        }
        assert(len == rows * p && p <= len) by {
            lemma_mul_inequality(1, rows as int, p as int);
            lemma_mul_is_commutative(p as int, rows as int);
        }
        let padded: usize = self.padded_bytes_per_row as usize;
        let unpadded: usize = self.unpadded_bytes_per_row as usize;
        let height: usize = self.height as usize;
        let mut row: usize = 0;
        while row < height
            invariant
                row <= height,
                height == rows,
                padded == p,
                unpadded == u,
                u <= p,
                data@.len() == len,
                len == rows * p,
                out@ == unpadded_image(data@, row as nat, p, u),
            decreases height - row,
        {
            let ghost before = out@;
            proof {
                lemma_mul_nonnegative(row as int, p as int);
                assert(row * p + p <= rows * p) by {
                    lemma_mul_inequality(row + 1, rows as int, p as int);
                    lemma_mul_is_distributive_add(p as int, row as int, 1);
                    lemma_mul_is_commutative(p as int, row + 1);
                    lemma_mul_is_commutative(p as int, row as int);
                }
            }
            let start: usize = row * padded;
            let mut col: usize = 0;
            while col < unpadded
                invariant
                    col <= unpadded,
                    row < height,
                    height == rows,
                    padded == p,
                    unpadded == u,
                    u <= p,
                    start == row * p,
                    data@.len() == len,
                    start + p <= len,
                    before == unpadded_image(data@, row as nat, p, u),
                    out@ == before + data@.subrange(start as int, start + col),
                decreases unpadded - col,
            {
                out.push(data[start + col]);
                col += 1;
                assert(out@ =~= before + data@.subrange(start as int, start + col));
            }
            proof {
                let next = unpadded_image(data@, (row + 1) as nat, p, u);
                assert((row + 1) * u == row * u + u) by {
                    lemma_mul_is_distributive_add(u as int, row as int, 1);
                    lemma_mul_is_commutative(u as int, row + 1);
                    lemma_mul_is_commutative(u as int, row as int);
                }
                lemma_mul_nonnegative(row as int, u as int);
                assert(out@.len() == next.len());
                assert forall|i: int| 0 <= i < next.len() implies out@[i] == next[i] by {
                    if i >= row * u {
                        let c = i - row * u;
                        lemma_unpadded_image_at(data@, (row + 1) as nat, p, u, row as int, c);
                    }
                }
                assert(out@ =~= next);
            }
            row += 1;
        }
        Some(out)
    }
}

} // verus!
