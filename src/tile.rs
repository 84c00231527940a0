//! Tile data: an 8x8 tile is stored as sixteen bytes, two per row. The first
//! byte of a row holds the low bit of each pixel's colour index, the second
//! the high bit; the leftmost pixel sits in the most significant bit.
use vstd::prelude::*;

verus! {

/// The colour index (0 to 3) of column `col` (0 is leftmost) in a row whose
/// low-bit byte is `low` and high-bit byte is `high`.
pub open spec fn pixel_color_id(low: u8, high: u8, col: int) -> u8 {
    let shift = (7 - col) as u8;
    ((((high >> shift) & 1u8) << 1u8) | ((low >> shift) & 1u8)) as u8
}

/// The colour index of pixel `i` (row-major) of the tile stored in `bytes`.
pub open spec fn tile_pixel(bytes: Seq<u8>, i: int) -> u8 {
    pixel_color_id(bytes[2 * (i / 8)], bytes[2 * (i / 8) + 1], i % 8)
}

/// Decode a tile's sixteen bytes into its 64 colour indices, row by row.
pub fn tile_color_ids(bytes: &[u8; 16]) -> (r: [u8; 64])
    ensures
        forall|i: int| 0 <= i < 64 ==> #[trigger] r@[i] == tile_pixel(bytes@, i),
        forall|i: int| 0 <= i < 64 ==> #[trigger] r@[i] < 4,
{
    let mut points = [0u8; 64];
    let mut row: usize = 0;
    while row < 8
        invariant
            0 <= row <= 8,
            points@.len() == 64,
            forall|i: int| 0 <= i < 8 * row ==> #[trigger] points@[i] == tile_pixel(bytes@, i),
        decreases 8 - row,
    {
        let low = bytes[2 * row];
        let high = bytes[2 * row + 1];
        let mut col: usize = 0;
        while col < 8
            invariant
                0 <= row < 8,
                0 <= col <= 8,
                points@.len() == 64,
                low == bytes@[2 * row as int],
                high == bytes@[2 * row as int + 1],
                forall|i: int|
                    0 <= i < 8 * row + col ==> #[trigger] points@[i] == tile_pixel(bytes@, i),
            decreases 8 - col,
        {
            let shift = (7 - col) as u8;
            let id = (((high >> shift) & 1) << 1) | ((low >> shift) & 1);
            proof {
                let k = 8 * row + col;
                assert(k / 8 == row && k % 8 == col);
            }
            points[8 * row + col] = id;
            col += 1;
        }
        row += 1;
    }
    proof {
        assert forall|i: int| 0 <= i < 64 implies #[trigger] points@[i] < 4 by {
            let v = points@[i];
            let row_i = i / 8;
            let shift = (7 - i % 8) as u8;
            let low = bytes@[2 * row_i];
            let high = bytes@[2 * row_i + 1];
            assert(((((high >> shift) & 1u8) << 1u8) | ((low >> shift) & 1u8)) < 4)
                by (bit_vector);
        }
    }
    points
}

} // verus!
