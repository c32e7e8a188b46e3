//! Frames read back from the GPU: rows are copied with a pitch aligned to
//! 256 bytes, and the padding at the end of each row is removed afterwards.
//! The DirectX and wgpu backends read frames back this way.

use vstd::prelude::*;

verus! {

/// The row pitch of a frame read back from the GPU: four bytes per pixel,
/// rounded up to a multiple of 256 bytes.
pub open spec fn spec_readback_row_pitch(width: u32) -> int {
    ((width * 4 + 255) / 256) * 256
}

/// The row pitch of a frame of `width` pixels read back from the GPU
pub fn readback_row_pitch(width: u32) -> (pitch: u32)
    requires
        width * 4 + 255 <= u32::MAX,
    ensures
        pitch == spec_readback_row_pitch(width),
        pitch % 256 == 0,
        width * 4 <= pitch < width * 4 + 256,
{
    let pitch = ((width * 4 + 255) / 256) * 256;
    assert(((width * 4 + 255) / 256) * 256 <= width * 4 + 255) by (nonlinear_arith)
        requires
            width * 4 + 255 <= u32::MAX,
    ;
    assert(width * 4 <= ((width * 4 + 255) / 256) * 256) by (nonlinear_arith)
        requires
            width * 4 + 255 <= u32::MAX,
    ;
    pitch
}

/// The pixels of a frame read back with rows `row_pitch` bytes apart,
/// without the padding at the end of each row: row `y` of the result is the
/// first `width * 4` bytes at `y * row_pitch`
pub fn strip_row_padding(data: &[u8], width: u32, height: u32, row_pitch: u32) -> (pixels: Vec<u8>)
    requires
        width * 4 <= row_pitch,
        height * row_pitch <= data@.len(),
        height * row_pitch <= usize::MAX,
    ensures
        pixels@.len() == width * 4 * height,
        forall|y: int, x: int| 0 <= y < height && 0 <= x < width * 4
            ==> #[trigger] pixels@[y * (width * 4) + x] == data@[y * row_pitch + x],
{
    let total: usize = data.len();
    let row_bytes: usize = (width as usize) * 4;
    let pitch: usize = row_pitch as usize;
    let mut pixels: Vec<u8> = Vec::new();
    let mut y: usize = 0;
    while y < height as usize
        invariant
            row_bytes == width * 4,
            pitch == row_pitch,
            row_bytes <= pitch,
            height * pitch <= data@.len(),
            height * pitch <= usize::MAX,
            total == data@.len(),
            y <= height,
            pixels@.len() == y * row_bytes,
            forall|r: int, x: int| 0 <= r < y && 0 <= x < row_bytes
                ==> #[trigger] pixels@[r * row_bytes + x] == data@[r * pitch + x],
        decreases height - y,
    {
        assert(y * pitch + pitch <= height * pitch) by (nonlinear_arith)
            requires
                y < height,
        ;
        let start: usize = y * pitch;
        let ghost before = pixels@;
        let mut x: usize = 0;
        while x < row_bytes
            invariant
                row_bytes == width * 4,
                pitch == row_pitch,
                row_bytes <= pitch,
                start == y * pitch,
                start + pitch <= data@.len(),
                total == data@.len(),
                y < height,
                x <= row_bytes,
                pixels@.len() == before.len() + x,
                before.len() == y * row_bytes,
                forall|i: int| 0 <= i < before.len() ==> pixels@[i] == before[i],
                forall|i: int| 0 <= i < x ==> #[trigger] pixels@[before.len() + i] == data@[start + i],
            decreases row_bytes - x,
        {
            pixels.push(data[start + x]);
            x += 1;
        }
        proof {
            assert forall|r: int, x: int| 0 <= r < y + 1 && 0 <= x < row_bytes
                implies #[trigger] pixels@[r * row_bytes + x] == data@[r * pitch + x] by {
                if r < y {
                    assert(r * row_bytes + x < y * row_bytes) by (nonlinear_arith)
                        requires
                            r < y,
                            x < row_bytes,
                    ;
                    assert(pixels@[r * row_bytes + x] == before[r * row_bytes + x]);
                } else {
                    assert(r == y);
                    assert(pixels@[before.len() + x] == data@[start + x]);
                }
            }
            assert(pixels@.len() == (y + 1) * row_bytes) by (nonlinear_arith)
                requires
                    pixels@.len() == y * row_bytes + row_bytes,
            ;
        }
        y += 1;
    }
    assert(pixels@.len() == width * 4 * height) by (nonlinear_arith)
        requires
            pixels@.len() == height * row_bytes,
            row_bytes == width * 4,
    ;
    pixels
}

} // verus!
