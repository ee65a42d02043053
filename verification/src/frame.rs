//! Pixel layouts and the strided copy between them.
//!
//! A decoded sample carries three bytes per pixel. The frame buffer carries
//! four: the same three colour bytes followed by one padding byte that no copy
//! ever writes.

use vstd::prelude::*;

verus! {

/// Bytes per pixel of a decoded sample: three colour channels.
pub const SAMPLE_BYTES_PER_PIXEL: usize = 3;

/// Bytes per pixel of the frame buffer: three colour channels and one padding byte.
pub const FRAME_BYTES_PER_PIXEL: usize = 4;

/// Number of whole pixels that a copy from `src` into `dest` moves: as many as
/// both sides hold in full.
pub open spec fn copied_pixels(dest: Seq<u8>, src: Seq<u8>) -> int {
    if dest.len() / 4 <= src.len() / 3 {
        dest.len() as int / 4
    } else {
        src.len() as int / 3
    }
}

/// The frame bytes after a sample has been copied in.
///
/// Byte `k < 3` of pixel `p` is byte `k` of the sample's pixel `p`, for every
/// pixel that both sides hold in full. Every other byte, each padding byte
/// among them, is what `dest` had.
pub open spec fn strided_copy(dest: Seq<u8>, src: Seq<u8>) -> Seq<u8> {
    Seq::new(
        dest.len(),
        |i: int|
            if i % 4 < 3 && i / 4 < copied_pixels(dest, src) {
                src[3 * (i / 4) + i % 4]
            } else {
                dest[i]
            },
    )
}

/// The bytes of a run of three-byte pixels, in order.
pub open spec fn rgb_bytes(pixels: Seq<[u8; 3]>) -> Seq<u8> {
    Seq::new(3 * pixels.len(), |i: int| pixels[i / 3][i % 3])
}

/// A frame of `len` bytes, all zero.
pub open spec fn blank_frame(len: nat) -> Seq<u8> {
    Seq::new(len, |i: int| 0u8)
}

/// Copies each three-byte pixel of `pixels` into the first three bytes of the
/// four-byte pixel at the same position of `dest`.
pub fn copy_rgb_into_rgbx(dest: &mut Vec<u8>, pixels: &[[u8; 3]])
    ensures
        final(dest)@ == strided_copy(old(dest)@, rgb_bytes(pixels@)),
{
    let ghost before = dest@;
    let ghost src = rgb_bytes(pixels@);
    let dest_pixels: usize = dest.len() / FRAME_BYTES_PER_PIXEL;
    let count: usize = if dest_pixels <= pixels.len() {
        dest_pixels
    } else {
        pixels.len()
    };
    let mut p: usize = 0;
    while p < count
        invariant
            p <= count,
            count * 4 <= dest.len(),
            count <= pixels.len(),
            dest.len() == before.len(),
            src == rgb_bytes(pixels@),
            forall|i: int|
                0 <= i < dest.len() ==> dest@[i] == (if i % 4 < 3 && i / 4 < p {
                    src[3 * (i / 4) + i % 4]
                } else {
                    before[i]
                }),
        decreases count - p,
    {
        let pixel: [u8; 3] = pixels[p];
        let base: usize = p * FRAME_BYTES_PER_PIXEL;
        dest.set(base, pixel[0]);
        dest.set(base + 1, pixel[1]);
        dest.set(base + 2, pixel[2]);
        p = p + 1;
    }
    assert(dest@ =~= strided_copy(before, src));
}

/// Whatever the sample holds, a copy gives a frame of the same length in which
/// the fourth byte of every pixel is what it was.
pub proof fn lemma_strided_copy_keeps_padding(dest: Seq<u8>, src: Seq<u8>)
    ensures
        strided_copy(dest, src).len() == dest.len(),
        forall|i: int|
            0 <= i < dest.len() && i % 4 == 3 ==> #[trigger] strided_copy(dest, src)[i] == dest[i],
{
}

/// A sample of exactly as many pixels as the frame overwrites every colour
/// byte and nothing else: what is read back has the frame's length, each
/// padding byte is what the frame had before the write, and every other byte
/// is the sample's byte at the same pixel and channel.
pub proof fn lemma_strided_copy_full_frame(dest: Seq<u8>, src: Seq<u8>)
    requires
        dest.len() % 4 == 0,
        src.len() * 4 == dest.len() * 3,
    ensures
        strided_copy(dest, src).len() == dest.len(),
        forall|i: int|
            0 <= i < dest.len() && i % 4 == 3 ==> #[trigger] strided_copy(dest, src)[i] == dest[i],
        forall|i: int|
            0 <= i < dest.len() && i % 4 != 3 ==> #[trigger] strided_copy(dest, src)[i] == src[3
                * (i / 4) + i % 4],
{
}

} // verus!
