//! Row-major image buffer geometry.
//!
//! The renderer computes each row of the image independently and the rows are
//! then assembled, in row order, into one `width * height * 3`-byte RGB
//! buffer. The functions here pin down that geometry exactly: where each
//! pixel's bytes land, that assembling rows places every row at the offset
//! given by its index alone, and that the assembled buffer is uniquely
//! determined by the rows.

use vstd::arithmetic::div_mod::lemma_fundamental_div_mod;
use vstd::arithmetic::div_mod::lemma_mod_division_less_than_divisor;
use vstd::pervasive::VecAdditionalExecFns;
use vstd::prelude::*;

use crate::palette::Color;

verus! {

/// The escape-time iteration limit: a point still bounded after this many
/// steps is treated as interior.
pub const MAX_ITERATIONS: usize = 35000;

/// Bytes per pixel in the RGB buffer.
pub const BYTES_PER_PIXEL: usize = 3;

/// The views of a sequence of per-row byte vectors.
pub open spec fn row_views(rows: Seq<Vec<u8>>) -> Seq<Seq<u8>> {
    rows.map_values(|row: Vec<u8>| row@)
}

/// Byte offset at which row `r` starts in a row-major buffer whose rows hold
/// `width` pixels each.
pub open spec fn row_offset(r: int, width: int) -> int {
    r * (3 * width)
}

/// `buf` is the row-major assembly of `rows`: one row of `3 * width` bytes
/// after another, row `r` starting at `row_offset(r, width)`.
pub open spec fn assembled(buf: Seq<u8>, rows: Seq<Seq<u8>>, width: int) -> bool {
    &&& buf.len() == rows.len() * (3 * width)
    &&& forall|r: int, i: int|
        0 <= r < rows.len() && 0 <= i < 3 * width ==> buf[row_offset(r, width) + i] == rows[r][i]
}

/// A fresh all-zero row buffer for `width` pixels.
pub fn blank_row(width: usize) -> (row: Vec<u8>)
    requires
        width <= usize::MAX / 3,
    ensures
        row@.len() == 3 * width,
        forall|i: int| 0 <= i < row@.len() ==> row@[i] == 0u8,
{
    let n: usize = 3 * width;
    let mut row: Vec<u8> = Vec::new();
    let mut i: usize = 0;
    while i < n
        invariant
            i <= n,
            row@.len() == i,
            forall|j: int| 0 <= j < i ==> row@[j] == 0u8,
        decreases n - i,
    {
        row.push(0u8);
        i = i + 1;
    }
    row
}

/// Writes one pixel's three channel bytes at the offset determined by the
/// pixel's column; every other byte of the row is left as it was.
pub fn write_pixel(row: &mut Vec<u8>, x: usize, c: Color)
    requires
        3 * x + 3 <= old(row)@.len() <= usize::MAX,
    ensures
        final(row)@.len() == old(row)@.len(),
        final(row)@[3 * x as int] == c.r,
        final(row)@[3 * x + 1] == c.g,
        final(row)@[3 * x + 2] == c.b,
        forall|i: int|
            0 <= i < final(row)@.len() && !(3 * x <= i < 3 * x + 3) ==> final(row)@[i] == old(
                row,
            )@[i],
{
    let off: usize = 3 * x;
    row.set(off, c.r);
    row.set(off + 1, c.g);
    row.set(off + 2, c.b);
}

/// A byte of a row before row `r` lies strictly below row `r`'s own offset.
proof fn lemma_row_offset_bound(k: int, r: int, i2: int, width: int)
    by (nonlinear_arith)
    requires
        width >= 0,
        0 <= k < r,
        0 <= i2 < 3 * width,
    ensures
        0 <= k * (3 * width) + i2,
        k * (3 * width) + i2 < r * (3 * width),
{
}

/// Concatenates per-row pixel buffers, in row order, into one row-major image
/// buffer. Row `r` of the result is exactly `rows[r]`, at the offset given by
/// `r` alone.
pub fn assemble_rows(rows: &Vec<Vec<u8>>, width: usize) -> (buf: Vec<u8>)
    requires
        forall|r: int| 0 <= r < rows@.len() ==> rows@[r]@.len() == 3 * width,
    ensures
        assembled(buf@, row_views(rows@), width as int),
{
    let mut buf: Vec<u8> = Vec::new();
    let mut r: usize = 0;
    while r < rows.len()
        invariant
            r <= rows@.len(),
            forall|k: int| 0 <= k < rows@.len() ==> rows@[k]@.len() == 3 * width,
            buf@.len() == r * (3 * width),
            forall|k: int, i: int|
                0 <= k < r && 0 <= i < 3 * width ==> buf@[row_offset(k, width as int) + i]
                    == rows@[k]@[i],
        decreases rows@.len() - r,
    {
        let row = &rows[r];
        let mut i: usize = 0;
        while i < row.len()
            invariant
                r < rows@.len(),
                forall|k: int| 0 <= k < rows@.len() ==> rows@[k]@.len() == 3 * width,
                row@ == rows@[r as int]@,
                i <= row@.len(),
                buf@.len() == r * (3 * width) + i,
                forall|k: int, i2: int|
                    0 <= k < r && 0 <= i2 < 3 * width ==> buf@[row_offset(k, width as int) + i2]
                        == rows@[k]@[i2],
                forall|i2: int|
                    0 <= i2 < i ==> buf@[row_offset(r as int, width as int) + i2] == row@[i2],
            decreases row@.len() - i,
        {
            buf.push(row[i]);
            proof {
                assert forall|k: int, i2: int|
                    0 <= k < r && 0 <= i2 < 3 * width implies buf@[row_offset(
                    k,
                    width as int,
                ) + i2] == rows@[k]@[i2] by {
                    lemma_row_offset_bound(k, r as int, i2, width as int);
                }
            }
            i = i + 1;
        }
        proof {
            assert(((r + 1) as int) * (3 * width as int) == (r as int) * (3 * width as int) + 3
                * (width as int)) by (nonlinear_arith);
        }
        r = r + 1;
    }
    proof {
        assert(row_views(rows@).len() == rows@.len());
    }
    buf
}

/// Rows are independent: reading row `r` back out of the assembled buffer
/// gives exactly the row that was handed in, whatever the other rows hold.
pub proof fn lemma_row_independence(buf: Seq<u8>, rows: Seq<Seq<u8>>, width: int, r: int)
    requires
        width >= 0,
        assembled(buf, rows, width),
        forall|k: int| 0 <= k < rows.len() ==> rows[k].len() == 3 * width,
        0 <= r < rows.len(),
    ensures
        buf.subrange(row_offset(r, width), row_offset(r + 1, width)) == rows[r],
{
    assert(row_offset(r, width) >= 0) by (nonlinear_arith)
        requires
            r >= 0,
            width >= 0,
    ;
    assert(row_offset(r + 1, width) == row_offset(r, width) + 3 * width) by (nonlinear_arith);
    assert(row_offset(r + 1, width) <= rows.len() * (3 * width)) by (nonlinear_arith)
        requires
            0 <= r < rows.len(),
            width >= 0,
    ;
    let sub = buf.subrange(row_offset(r, width), row_offset(r + 1, width));
    assert forall|i: int| 0 <= i < 3 * width implies sub[i] == rows[r][i] by {
        assert(buf[row_offset(r, width) + i] == rows[r][i]);
    }
    assert(sub =~= rows[r]);
}

/// Assembly is deterministic: the rows alone fix every byte of the buffer, so
/// any two buffers assembled from the same rows are equal, however the rows
/// were produced or scheduled.
pub proof fn lemma_assembled_deterministic(
    buf1: Seq<u8>,
    buf2: Seq<u8>,
    rows: Seq<Seq<u8>>,
    width: int,
)
    requires
        width >= 0,
        assembled(buf1, rows, width),
        assembled(buf2, rows, width),
    ensures
        buf1 == buf2,
{
    if width == 0 {
        assert(buf1.len() == 0);
        assert(buf1 =~= buf2);
    } else {
        let w3 = 3 * width;
        assert forall|j: int| 0 <= j < buf1.len() implies buf1[j] == buf2[j] by {
            let r = j / w3;
            let i = j % w3;
            lemma_fundamental_div_mod(j, w3);
            lemma_mod_division_less_than_divisor(j, w3);
            assert(0 <= r < rows.len()) by (nonlinear_arith)
                requires
                    w3 > 0,
                    j == w3 * r + i,
                    0 <= i < w3,
                    0 <= j < rows.len() * w3,
            ;
            assert(row_offset(r, width) + i == j) by (nonlinear_arith)
                requires
                    j == w3 * r + i,
                    w3 == 3 * width,
            ;
            assert(buf1[j] == rows[r][i]);
            assert(buf2[j] == rows[r][i]);
        }
        assert(buf1 =~= buf2);
    }
}

} // verus!
