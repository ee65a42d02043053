//! The frame buffer: one frame of four-byte pixels with fixed dimensions.

use crate::error::FrameError;
use crate::frame::{
    blank_frame, copy_rgb_into_rgbx, rgb_bytes, strided_copy, FRAME_BYTES_PER_PIXEL,
};
use crate::sample::{decode_sample, sample_payload, Sample};
use vstd::prelude::*;

verus! {

/// Number of bytes of a frame of `width` by `height` pixels.
pub open spec fn frame_len(width: nat, height: nat) -> nat {
    width * height * 4
}

/// One frame, row-major, four bytes per pixel.
///
/// The dimensions are chosen at construction and never change, and the buffer
/// always holds exactly `width * height * 4` bytes.
pub struct FrameBuffer {
    width: usize,
    height: usize,
    data: Vec<u8>,
}

impl View for FrameBuffer {
    type V = Seq<u8>;

    closed spec fn view(&self) -> Seq<u8> {
        self.data@
    }
}

impl FrameBuffer {
    /// Width in pixels.
    pub closed spec fn spec_width(&self) -> usize {
        self.width
    }

    /// Height in pixels.
    pub closed spec fn spec_height(&self) -> usize {
        self.height
    }

    /// The buffer holds exactly one frame of its dimensions.
    pub closed spec fn wf(&self) -> bool {
        self.data@.len() == frame_len(self.width as nat, self.height as nat)
    }

    /// A well-formed buffer has the length that its dimensions give.
    pub proof fn lemma_len(&self)
        requires
            self.wf(),
        ensures
            self@.len() == frame_len(self.width() as nat, self.height() as nat),
            self@.len() % 4 == 0,
            self@.len() / 4 == self.width() * self.height(),
    {
        assert(self.width * self.height * 4 == (self.width * self.height) * 4);
    }

    /// A frame of the given dimensions with every byte zero.
    pub fn new(width: usize, height: usize) -> (r: FrameBuffer)
        requires
            frame_len(width as nat, height as nat) <= isize::MAX,
        ensures
            r.wf(),
            r.width() == width,
            r.height() == height,
            r@ == blank_frame(frame_len(width as nat, height as nat)),
    {
        assert(width * height <= width * height * 4) by (nonlinear_arith);
        let pixels: usize = width * height;
        let data: Vec<u8> = vec![0u8; pixels * FRAME_BYTES_PER_PIXEL];
        assert(data@ =~= blank_frame(frame_len(width as nat, height as nat)));
        FrameBuffer { width, height, data }
    }

    /// Width in pixels.
    #[verifier::when_used_as_spec(spec_width)]
    pub fn width(&self) -> (r: usize)
        ensures
            r == self.width(),
    {
        self.width
    }

    /// Height in pixels.
    #[verifier::when_used_as_spec(spec_height)]
    pub fn height(&self) -> (r: usize)
        ensures
            r == self.height(),
    {
        self.height
    }

    /// Length in bytes.
    pub fn len(&self) -> (r: usize)
        requires
            self.wf(),
        ensures
            r == self@.len(),
            r == frame_len(self.width() as nat, self.height() as nat),
    {
        self.data.len()
    }

    /// The frame's bytes.
    pub fn as_slice(&self) -> (r: &[u8])
        ensures
            r@ == self@,
    {
        self.data.as_slice()
    }

    /// A full copy of the frame's bytes, as the display takes it.
    pub fn to_vec(&self) -> (r: Vec<u8>)
        ensures
            r@ == self@,
    {
        self.data.clone()
    }

    /// The four bytes of the pixel at `index`, counted row by row, or `None` if
    /// the frame has no such pixel.
    pub fn pixel(&self, index: usize) -> (r: Option<[u8; 4]>)
        requires
            self.wf(),
        ensures
            r is Some <==> index < self.width() * self.height(),
            r matches Some(bytes) ==> forall|k: int|
                0 <= k < 4 ==> bytes[k] == self@[4 * index + k],
    {
        let len: usize = self.data.len();
        proof {
            self.lemma_len();
        }
        if index < len / FRAME_BYTES_PER_PIXEL {
            let base: usize = index * FRAME_BYTES_PER_PIXEL;
            Some([self.data[base], self.data[base + 1], self.data[base + 2], self.data[base + 3]])
        } else {
            None
        }
    }

    /// Copies three-byte pixels into the frame, leaving each padding byte alone.
    pub fn write_pixels(&mut self, pixels: &[[u8; 3]])
        requires
            old(self).wf(),
        ensures
            final(self).wf(),
            final(self).width() == old(self).width(),
            final(self).height() == old(self).height(),
            final(self)@ == strided_copy(old(self)@, rgb_bytes(pixels@)),
    {
        copy_rgb_into_rgbx(&mut self.data, pixels);
    }

    /// Validates a sample and, if it is sound, copies it into the frame.
    ///
    /// A sample that fails validation leaves the frame as it was.
    pub fn publish(&mut self, sample: &Sample) -> (r: Result<(), FrameError>)
        requires
            old(self).wf(),
        ensures
            final(self).wf(),
            final(self).width() == old(self).width(),
            final(self).height() == old(self).height(),
            match sample_payload(*sample) {
                Ok(payload) => r is Ok && final(self)@ == strided_copy(old(self)@, payload),
                Err(e) => r == Err::<(), FrameError>(e) && final(self)@ == old(self)@,
            },
    {
        match decode_sample(sample) {
            Ok(pixels) => {
                self.write_pixels(pixels);
                Ok(())
            },
            Err(e) => Err(e),
        }
    }
}

} // verus!
