//! Pixels in memory: four bytes each, in rows that may be padded.

use vstd::prelude::*;

use crate::wire::push_bytes;

verus! {

/// The bytes with the first and third of each whole pixel exchanged. Bytes behind
/// the last whole pixel stay.
pub open spec fn swapped(bytes: Seq<u8>) -> Seq<u8> {
    Seq::new(
        bytes.len(),
        |i: int|
            if i / 4 * 4 + 4 > bytes.len() {
                bytes[i]
            } else if i % 4 == 0 {
                bytes[i + 2]
            } else if i % 4 == 2 {
                bytes[i - 2]
            } else {
                bytes[i]
            },
    )
}

/// Turns BGRA pixels into RGBA ones, or back.
pub fn swap_red_and_blue(bytes: &mut Vec<u8>)
    ensures
        final(bytes)@ == swapped(old(bytes)@),
{
    let len: usize = bytes.len();
    let mut at: usize = 0;
    while len - at >= 4
        invariant
            len == old(bytes)@.len(),
            bytes@.len() == len,
            at % 4 == 0,
            at <= len,
            forall|i: int| 0 <= i < at ==> #[trigger] bytes@[i] == swapped(old(bytes)@)[i],
            forall|i: int| at <= i < len ==> #[trigger] bytes@[i] == old(bytes)@[i],
        decreases len - at,
    {
        let first: u8 = bytes[at];
        let third: u8 = bytes[at + 2];
        bytes.set(at, third);
        bytes.set(at + 2, first);
        at += 4;
    }
    assert(bytes@ =~= swapped(old(bytes)@));
}

/// Exchanging twice changes nothing.
pub proof fn swapping_twice_changes_nothing(bytes: Seq<u8>)
    ensures
        swapped(swapped(bytes)) == bytes,
{
    assert(swapped(swapped(bytes)) =~= bytes);
}

/// The bytes of an image without padding.
pub open spec fn image_length(width: u32, height: u32) -> int {
    width as int * 4 * height as int
}

/// Rows of `tight` bytes, `stride` apart, put one behind the other.
pub open spec fn packed(bytes: Seq<u8>, offset: int, stride: int, tight: int, rows: int) -> Seq<u8> {
    Seq::new(
        (tight * rows) as nat,
        |i: int| bytes[offset + i / tight * stride + i % tight],
    )
}

/// Whether every one of the rows lies within so many bytes.
pub open spec fn rows_within(length: int, offset: int, stride: int, tight: int, rows: int) -> bool {
    forall|row: int| 0 <= row < rows ==> offset + #[trigger] (row * stride) + tight <= length
}

proof fn one_more_row(bytes: Seq<u8>, offset: int, stride: int, tight: int, rows: int)
    requires
        tight > 0,
        rows >= 0,
        stride >= 0,
        offset >= 0,
        offset + rows * stride + tight <= bytes.len(),
    ensures
        packed(bytes, offset, stride, tight, rows + 1) == packed(
            bytes,
            offset,
            stride,
            tight,
            rows,
        ) + bytes.subrange(offset + rows * stride, offset + rows * stride + tight),
{
    let before = packed(bytes, offset, stride, tight, rows);
    let after = packed(bytes, offset, stride, tight, rows + 1);
    let row = bytes.subrange(offset + rows * stride, offset + rows * stride + tight);
    assert(tight * (rows + 1) == tight * rows + tight && tight * rows >= 0) by (nonlinear_arith)
        requires
            tight > 0,
            rows >= 0,
    ;
    assert(offset + rows * stride >= 0) by (nonlinear_arith)
        requires
            offset >= 0,
            rows >= 0,
            stride >= 0,
    ;
    assert forall|i: int| 0 <= i < after.len() implies after[i] == (before + row)[i] by {
        if i >= tight * rows {
            assert(i / tight == rows && i % tight == i - tight * rows) by (nonlinear_arith)
                requires
                    tight > 0,
                    tight * rows <= i < tight * rows + tight,
            ;
        }
    }
    assert(after =~= before + row);
}

/// Takes the padding out of an image: puts `rows` rows of `tight` bytes, `stride`
/// apart from `offset` on, one behind the other.
pub fn pack_rows(bytes: &[u8], offset: usize, stride: usize, tight: usize, rows: usize) -> (image:
    Vec<u8>)
    requires
        tight > 0,
        rows_within(bytes.len() as int, offset as int, stride as int, tight as int, rows as int),
    ensures
        image@ == packed(bytes@, offset as int, stride as int, tight as int, rows as int),
{
    let mut image: Vec<u8> = Vec::new();
    let mut row: usize = 0;
    assert(image@ =~= packed(bytes@, offset as int, stride as int, tight as int, 0));
    while row < rows
        invariant
            row <= rows,
            tight > 0,
            rows_within(
                bytes.len() as int,
                offset as int,
                stride as int,
                tight as int,
                rows as int,
            ),
            image@ == packed(bytes@, offset as int, stride as int, tight as int, row as int),
        decreases rows - row,
    {
        assert(offset + row * stride + tight <= bytes.len());
        assert(row * stride >= 0) by (nonlinear_arith)
            requires
                row >= 0,
                stride >= 0,
        ;
        let start: usize = offset + row * stride;
        push_bytes(&mut image, vstd::slice::slice_subrange(bytes, start, start + tight));
        proof {
            one_more_row(bytes@, offset as int, stride as int, tight as int, row as int);
        }
        row += 1;
    }
    image
}

/// Calls for `wgpu::COPY_BYTES_PER_ROW_ALIGNMENT`: rows that are copied out of a
/// texture start at multiples of 256 bytes.
#[verifier::external_body]
fn row_alignment() -> (align: u32)
    ensures
        align == 256,
{
    wgpu::COPY_BYTES_PER_ROW_ALIGNMENT
}

/// The least multiple of 256 that holds a row of four bytes per pixel.
pub open spec fn padded_row_spec(width: u32) -> int {
    (width * 4 + 255) / 256 * 256
}

/// The bytes from one row to the next in a copy of a texture.
pub fn padded_row(width: u32) -> (bytes: u32)
    requires
        padded_row_spec(width) <= u32::MAX,
    ensures
        bytes == padded_row_spec(width),
{
    proof {
        padded_rows_are_tight(width);
    }
    let align: u32 = row_alignment();
    let tight: u32 = width * 4;
    let rows: u32 = if tight % align == 0 {
        tight / align
    } else {
        tight / align + 1
    };
    rows * align
}

/// A padded row holds its pixels, starts where a copy may, and wastes less than one
/// alignment.
pub proof fn padded_rows_are_tight(width: u32)
    ensures
        padded_row_spec(width) % 256 == 0,
        width * 4 <= padded_row_spec(width) < width * 4 + 256,
{
}

/// Every whole pixel has its first and its third byte exchanged, and keeps its second and
/// its fourth: blue, green, red and alpha become red, green, blue and alpha. What is behind
/// the last whole pixel stays.
pub proof fn every_pixel_is_turned_round(bytes: Seq<u8>, pixel: int)
    requires
        0 <= pixel,
    ensures
        swapped(bytes).len() == bytes.len(),
        4 * pixel + 4 <= bytes.len() ==> {
            &&& swapped(bytes)[4 * pixel] == bytes[4 * pixel + 2]
            &&& swapped(bytes)[4 * pixel + 1] == bytes[4 * pixel + 1]
            &&& swapped(bytes)[4 * pixel + 2] == bytes[4 * pixel]
            &&& swapped(bytes)[4 * pixel + 3] == bytes[4 * pixel + 3]
        },
        forall|i: int|
            4 * pixel <= i < bytes.len() < 4 * pixel + 4 ==> #[trigger] swapped(bytes)[i]
                == bytes[i],
{
}

/// Packed rows are the rows: the byte at a place of a row is the one at that place of the
/// padded row.
pub proof fn packed_rows_are_the_rows(
    bytes: Seq<u8>,
    offset: int,
    stride: int,
    tight: int,
    rows: int,
    row: int,
    column: int,
)
    requires
        0 <= row < rows,
        0 <= column < tight,
    ensures
        packed(bytes, offset, stride, tight, rows).len() == tight * rows,
        0 <= row * tight + column < tight * rows,
        packed(bytes, offset, stride, tight, rows)[row * tight + column] == bytes[offset + row
            * stride + column],
{
    let at = row * tight + column;
    assert(0 <= at < tight * rows && at / tight == row && at % tight == column)
        by (nonlinear_arith)
        requires
            0 <= row < rows,
            0 <= column < tight,
            at == row * tight + column,
    ;
}

/// An image has four bytes for every pixel: a row more is four bytes more for each pixel of
/// the row.
pub proof fn images_have_four_bytes_a_pixel(width: u32, height: u32)
    ensures
        image_length(width, height) == (width * height) * 4,
        image_length(width, 0) == 0,
        height < u32::MAX ==> image_length(width, (height + 1) as u32) == image_length(
            width,
            height,
        ) + 4 * width,
{
    assert(image_length(width, height) == (width * height) * 4) by (nonlinear_arith)
        requires
            image_length(width, height) == width as int * 4 * height as int,
    ;
    if height < u32::MAX {
        assert(width as int * 4 * (height as int + 1) == width as int * 4 * height as int + 4
            * width) by (nonlinear_arith);
    }
}

/// A row is padded to no more than it must be: no smaller multiple of 256 bytes holds it.
pub proof fn no_smaller_row_would_do(width: u32, bytes: int)
    requires
        bytes % 256 == 0,
        width * 4 <= bytes,
    ensures
        padded_row_spec(width) <= bytes,
        padded_row_spec(width) % 256 == 0,
        width * 4 <= padded_row_spec(width),
{
}

} // verus!
