//! The frame slot: the latest frame, and whether the pipeline may still write it.

use crate::buffer::{frame_len, FrameBuffer};
use crate::error::FrameError;
use crate::frame::{blank_frame, lemma_strided_copy_full_frame, rgb_bytes, strided_copy};
use crate::history::{
    is_published_frame, lemma_replay_keeps_padding, lemma_replay_len, lemma_replay_push,
    lemma_replay_untorn, pixel_from, pixel_untouched, replay,
};
use crate::pipeline::PipelineState;
use crate::sample::{decode_sample, sample_payload, Sample};
use vstd::prelude::*;

verus! {

/// What became of a delivered sample.
#[derive(Clone, Copy, Debug, PartialEq, Eq, Structural)]
pub enum Delivery {
    /// The sample was copied into the frame.
    Published,
    /// The sample failed validation and was dropped; the frame is untouched.
    Dropped(FrameError),
    /// The slot is closed, so the sample was ignored; the frame is untouched.
    Refused,
}

/// What the sink's callback answers to the pipeline for one sample.
#[derive(Clone, Copy, Debug, PartialEq, Eq, Structural)]
pub enum FlowStatus {
    /// The sample was taken; go on.
    Accepted,
    /// No more samples are taken: the stream has ended for this sink.
    Ended,
    /// The sample was dropped for an error; the pipeline goes on.
    Failed,
}

impl Delivery {
    /// The answer to the pipeline: a published sample is `Accepted`, a dropped
    /// one `Failed`, and one that was refused because the slot is closed `Ended`.
    pub open spec fn spec_flow(self) -> FlowStatus {
        match self {
            Delivery::Published => FlowStatus::Accepted,
            Delivery::Dropped(_) => FlowStatus::Failed,
            Delivery::Refused => FlowStatus::Ended,
        }
    }

    /// The answer to the pipeline.
    #[verifier::when_used_as_spec(spec_flow)]
    pub fn flow(self) -> (r: FlowStatus)
        ensures
            r == self.flow(),
    {
        match self {
            Delivery::Published => FlowStatus::Accepted,
            Delivery::Dropped(_) => FlowStatus::Failed,
            Delivery::Refused => FlowStatus::Ended,
        }
    }

    /// The error for which the sample was dropped, if it was.
    pub open spec fn spec_error(self) -> Option<FrameError> {
        match self {
            Delivery::Dropped(e) => Some(e),
            _ => None,
        }
    }

    /// The error for which the sample was dropped, if it was.
    #[verifier::when_used_as_spec(spec_error)]
    pub fn error(self) -> (r: Option<FrameError>)
        ensures
            r == self.error(),
    {
        match self {
            Delivery::Dropped(e) => Some(e),
            _ => None,
        }
    }
}

/// What a slot answers to a sample: validation comes first, then the question
/// whether the slot still takes writes.
pub open spec fn delivery_of(open: bool, sample: Sample) -> Delivery {
    match sample_payload(sample) {
        Err(e) => Delivery::Dropped(e),
        Ok(_) => if open {
            Delivery::Published
        } else {
            Delivery::Refused
        },
    }
}

/// The frame after a sample was delivered: one strided copy of the payload if
/// the sample is sound and the slot open, and the same frame otherwise.
pub open spec fn frame_after(open: bool, frame: Seq<u8>, sample: Sample) -> Seq<u8> {
    match sample_payload(sample) {
        Ok(payload) => if open {
            strided_copy(frame, payload)
        } else {
            frame
        },
        Err(_) => frame,
    }
}

/// A sample whose payload is empty is an acquisition failure, and delivering it
/// changes no byte of the frame, open or closed.
pub proof fn lemma_empty_payload_changes_nothing(open: bool, frame: Seq<u8>, bytes: &[u8])
    requires
        bytes@.len() == 0,
    ensures
        delivery_of(open, Sample::Readable(bytes)) == Delivery::Dropped(
            FrameError::DataAcquisitionFailure,
        ),
        frame_after(open, frame, Sample::Readable(bytes)) == frame,
{
}

/// A sample whose payload is not a multiple of three bytes long is a format
/// failure, and delivering it changes no byte of the frame, open or closed.
pub proof fn lemma_ragged_payload_changes_nothing(open: bool, frame: Seq<u8>, bytes: &[u8])
    requires
        bytes@.len() % 3 != 0,
    ensures
        delivery_of(open, Sample::Readable(bytes)) == Delivery::Dropped(
            FrameError::FormatInterpretationFailure,
        ),
        frame_after(open, frame, Sample::Readable(bytes)) == frame,
{
}

/// Round trip: after an open slot took a sound sample of exactly as many
/// pixels as the frame, a reader finds the frame's length unchanged, every
/// padding byte as it was before the write, and every other byte equal to the
/// sample's byte at the same pixel and channel.
pub proof fn lemma_full_sample_round_trip(frame: Seq<u8>, sample: Sample)
    requires
        frame.len() % 4 == 0,
        sample_payload(sample) matches Ok(payload) && payload.len() * 4 == frame.len() * 3,
    ensures
        delivery_of(true, sample) == Delivery::Published,
        frame_after(true, frame, sample).len() == frame.len(),
        forall|i: int|
            0 <= i < frame.len() && i % 4 == 3 ==> #[trigger] frame_after(true, frame, sample)[i]
                == frame[i],
        forall|i: int|
            0 <= i < frame.len() && i % 4 != 3 ==> #[trigger] frame_after(true, frame, sample)[i]
                == sample_payload(sample)->Ok_0[3 * (i / 4) + i % 4],
{
    lemma_strided_copy_full_frame(frame, sample_payload(sample)->Ok_0);
}

/// A closed slot keeps its frame, whatever is delivered.
pub proof fn lemma_closed_slot_keeps_frame(frame: Seq<u8>, sample: Sample)
    ensures
        frame_after(false, frame, sample) == frame,
        delivery_of(false, sample) != Delivery::Published,
{
}

/// A single frame buffer together with the switch that ends all writing.
///
/// The slot starts blank and open. It holds the most recent frame only: each
/// delivery overwrites in place, and nothing is queued.
pub struct FrameSlot {
    frame: FrameBuffer,
    open: bool,
    writes: Ghost<Seq<Seq<u8>>>,
}

impl View for FrameSlot {
    type V = Seq<u8>;

    closed spec fn view(&self) -> Seq<u8> {
        self.frame@
    }
}

impl FrameSlot {
    /// Width in pixels.
    pub closed spec fn spec_width(&self) -> usize {
        self.frame.width()
    }

    /// Height in pixels.
    pub closed spec fn spec_height(&self) -> usize {
        self.frame.height()
    }

    /// Whether the slot still takes writes.
    pub closed spec fn spec_is_open(&self) -> bool {
        self.open
    }

    /// The payloads written so far, first to last.
    pub closed spec fn writes(&self) -> Seq<Seq<u8>> {
        self.writes@
    }

    /// The frame is whole, and it is the blank frame after the writes so far.
    pub closed spec fn wf(&self) -> bool {
        &&& self.frame.wf()
        &&& self.frame@ == replay(
            blank_frame(frame_len(self.frame.width() as nat, self.frame.height() as nat)),
            self.writes@,
        )
    }

    /// What a well-formed slot holds is a frame of its dimensions that whole
    /// writes alone have made.
    pub proof fn lemma_published(&self)
        requires
            self.wf(),
        ensures
            self@ == replay(
                blank_frame(frame_len(self.width() as nat, self.height() as nat)),
                self.writes(),
            ),
            is_published_frame(self.width() as nat, self.height() as nat, self@),
            self@.len() == frame_len(self.width() as nat, self.height() as nat),
    {
        self.frame.lemma_len();
    }

    /// No pixel of a well-formed slot is torn: its colour bytes are all zero, as
    /// at the start, or all three are the bytes of the same pixel of one single
    /// write. Its padding byte is zero.
    pub proof fn lemma_untorn(&self, p: int)
        requires
            self.wf(),
            0 <= p < self.width() * self.height(),
        ensures
            self@[4 * p + 3] == 0,
            (self@[4 * p] == 0 && self@[4 * p + 1] == 0 && self@[4 * p + 2] == 0) || exists|j: int|
                0 <= j < self.writes().len() && pixel_from(self@, p, #[trigger] self.writes()[j]),
    {
        let start = blank_frame(
            frame_len(self.frame.width() as nat, self.frame.height() as nat),
        );
        self.frame.lemma_len();
        lemma_replay_len(start, self.writes@);
        lemma_replay_keeps_padding(start, self.writes@, p);
        lemma_replay_untorn(start, self.writes@, p);
        if !pixel_untouched(self@, p, start) {
            let j = choose|j: int|
                0 <= j < self.writes@.len() && pixel_from(self@, p, #[trigger] self.writes@[j]);
            assert(pixel_from(self@, p, self.writes()[j]));
        }
    }

    /// An open slot of the given dimensions with every byte zero.
    pub fn new(width: usize, height: usize) -> (r: FrameSlot)
        requires
            frame_len(width as nat, height as nat) <= isize::MAX,
        ensures
            r.wf(),
            r.is_open(),
            r.width() == width,
            r.height() == height,
            r.writes() == Seq::<Seq<u8>>::empty(),
            r@ == blank_frame(frame_len(width as nat, height as nat)),
    {
        FrameSlot { frame: FrameBuffer::new(width, height), open: true, writes: Ghost(Seq::empty()) }
    }

    /// Width in pixels.
    #[verifier::when_used_as_spec(spec_width)]
    pub fn width(&self) -> (r: usize)
        ensures
            r == self.width(),
    {
        self.frame.width()
    }

    /// Height in pixels.
    #[verifier::when_used_as_spec(spec_height)]
    pub fn height(&self) -> (r: usize)
        ensures
            r == self.height(),
    {
        self.frame.height()
    }

    /// Whether the slot still takes writes.
    #[verifier::when_used_as_spec(spec_is_open)]
    pub fn is_open(&self) -> (r: bool)
        ensures
            r == self.is_open(),
    {
        self.open
    }

    /// Copies pixels into the frame if the slot is open, and says whether it did.
    pub fn store(&mut self, pixels: &[[u8; 3]]) -> (written: bool)
        requires
            old(self).wf(),
        ensures
            final(self).wf(),
            final(self).width() == old(self).width(),
            final(self).height() == old(self).height(),
            final(self).is_open() == old(self).is_open(),
            written == old(self).is_open(),
            written ==> final(self)@ == strided_copy(old(self)@, rgb_bytes(pixels@))
                && final(self).writes() == old(self).writes().push(rgb_bytes(pixels@)),
            !written ==> final(self)@ == old(self)@ && final(self).writes() == old(self).writes(),
    {
        if self.open {
            proof {
                lemma_replay_push(
                    blank_frame(
                        frame_len(self.frame.width() as nat, self.frame.height() as nat),
                    ),
                    self.writes@,
                    rgb_bytes(pixels@),
                );
            }
            self.frame.write_pixels(pixels);
            self.writes = Ghost(self.writes@.push(rgb_bytes(pixels@)));
            true
        } else {
            false
        }
    }

    /// Validates a sample and, if it is sound and the slot is open, copies it
    /// into the frame. In every other case the frame stays as it was.
    ///
    /// Each published sample is exactly one write, and nothing else writes.
    pub fn deliver(&mut self, sample: &Sample) -> (r: Delivery)
        requires
            old(self).wf(),
        ensures
            final(self).wf(),
            final(self).width() == old(self).width(),
            final(self).height() == old(self).height(),
            final(self).is_open() == old(self).is_open(),
            r == delivery_of(old(self).is_open(), *sample),
            final(self)@ == frame_after(old(self).is_open(), old(self)@, *sample),
            final(self).writes() == (if r == Delivery::Published {
                old(self).writes().push(sample_payload(*sample)->Ok_0)
            } else {
                old(self).writes()
            }),
    {
        match decode_sample(sample) {
            Err(e) => Delivery::Dropped(e),
            Ok(pixels) => {
                if self.store(pixels) {
                    Delivery::Published
                } else {
                    Delivery::Refused
                }
            },
        }
    }

    /// Ends all writing. The frame written last stays readable.
    pub fn close(&mut self)
        requires
            old(self).wf(),
        ensures
            final(self).wf(),
            !final(self).is_open(),
            final(self).width() == old(self).width(),
            final(self).height() == old(self).height(),
            final(self).writes() == old(self).writes(),
            final(self)@ == old(self)@,
    {
        self.open = false;
    }

    /// Follows the pipeline: the slot stays as it is while the pipeline has not
    /// ended, and closes for good once it has.
    pub fn follow(&mut self, state: PipelineState)
        requires
            old(self).wf(),
        ensures
            final(self).wf(),
            final(self).is_open() == (old(self).is_open() && !state.has_ended()),
            final(self).width() == old(self).width(),
            final(self).height() == old(self).height(),
            final(self).writes() == old(self).writes(),
            final(self)@ == old(self)@,
    {
        if state.has_ended() {
            self.close();
        }
    }

    /// A full copy of the frame's current bytes.
    pub fn snapshot(&self) -> (r: Vec<u8>)
        ensures
            r@ == self@,
    {
        self.frame.to_vec()
    }
}

} // verus!
