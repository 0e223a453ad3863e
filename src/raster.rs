use vstd::prelude::*;

verus! {

/// Column and row (from the bottom) of buffer position `index` in an image
/// `width` pixels wide and `height` high.
pub open spec fn pixel_of(index: int, width: int, height: int) -> (int, int) {
    (index % width, height - 1 - index / width)
}

/// Buffer position of the pixel at `column` and `row` (from the bottom).
pub open spec fn index_of(column: int, row: int, width: int, height: int) -> int {
    (height - 1 - row) * width + column
}

/// Column and row of the pixel at `index` of an image buffer of `width` by
/// `height` pixels. The buffer holds rows from the top of the image down, each
/// from left to right; the row is counted from the bottom, as the camera's
/// vertical viewport coordinate is, so the buffer's first pixel is at column 0,
/// row `height - 1`.
pub fn pixel_coords(index: u32, width: u32, height: u32) -> (r: (u32, u32))
    requires
        width > 0,
        index < width as int * height as int,
    ensures
        r.0 == pixel_of(index as int, width as int, height as int).0,
        r.1 == pixel_of(index as int, width as int, height as int).1,
        r.0 < width,
        r.1 < height,
{
    let column = index % width;
    let row_from_top = index / width;
    assert(row_from_top < height) by (nonlinear_arith)
        requires
            width > 0,
            index < width as int * height as int,
            row_from_top == index / width,
    ;
    (column, height - 1 - row_from_top)
}

/// The buffer order visits every pixel of the image exactly once: each buffer
/// position names a pixel of the grid and is that pixel's only position, and
/// each pixel of the grid has a position in the buffer.
pub proof fn lemma_pixel_order_is_bijective(width: int, height: int, index: int, column: int, row: int)
    requires
        width > 0,
        height > 0,
        0 <= index < width * height,
        0 <= column < width,
        0 <= row < height,
    ensures
        0 <= pixel_of(index, width, height).0 < width,
        0 <= pixel_of(index, width, height).1 < height,
        index_of(pixel_of(index, width, height).0, pixel_of(index, width, height).1, width, height)
            == index,
        0 <= index_of(column, row, width, height) < width * height,
        pixel_of(index_of(column, row, width, height), width, height) == (column, row),
{
    let q = index / width;
    assert(q < height) by (nonlinear_arith)
        requires
            width > 0,
            0 <= index < width * height,
            q == index / width,
    ;
    assert(q * width + index % width == index) by (nonlinear_arith)
        requires
            width > 0,
            q == index / width,
    ;
    let k = index_of(column, row, width, height);
    let top = height - 1 - row;
    assert(0 <= top < height);
    assert(0 <= k < width * height) by (nonlinear_arith)
        requires
            k == top * width + column,
            0 <= top < height,
            0 <= column < width,
    ;
    assert(k / width == top && k % width == column) by (nonlinear_arith)
        requires
            k == top * width + column,
            0 <= top,
            0 <= column < width,
    ;
}

} // verus!
