//! The capture chain as the application sees it: its construction, the
//! producer that its sink calls for every decoded sample, the image that the
//! display reads, and the loader that makes one.

use crate::buffer::frame_len;
use crate::error::FrameError;
use crate::history::is_published_frame;
use crate::pipeline::{action_for, next_state, step, PipelineAction, PipelineEvent, PipelineState};
use crate::sample::{sample_payload, Sample};
use crate::shared::SharedFrameSlot;
use crate::slot::Delivery;
use vstd::prelude::*;

verus! {

/// Width of the captured image, in pixels.
pub const FRAME_WIDTH: usize = 176;

/// Height of the captured image, in pixels.
pub const FRAME_HEIGHT: usize = 144;

/// An element of the capture chain.
#[derive(Clone, Copy, Debug, PartialEq, Eq, Structural)]
pub enum Element {
    /// The camera source.
    Source,
    /// The decoder that turns the camera's stream into raw frames.
    Decoder,
    /// The sink that hands each raw frame to the producer.
    Sink,
}

/// Why a capture chain could not be built.
#[derive(Clone, Copy, Debug, PartialEq, Eq, Structural)]
pub enum ConstructionError {
    /// The element could not be made.
    MissingElement(Element),
    /// The first element cannot deliver what the second asks for.
    LinkRefused(Element, Element),
}

/// What was found when the chain was put together: which elements could be
/// made, and which links between them held.
#[derive(Clone, Copy, Debug, PartialEq, Eq, Structural)]
pub struct ChainReport {
    /// The source could be made.
    pub source: bool,
    /// The decoder could be made.
    pub decoder: bool,
    /// The sink could be made.
    pub sink: bool,
    /// The source could be linked to the decoder.
    pub source_to_decoder: bool,
    /// The decoder could be linked to the sink.
    pub decoder_to_sink: bool,
}

/// The format that the sink asks of the chain: raw video of this size, three
/// bytes per pixel.
#[derive(Clone, Copy, Debug, PartialEq, Eq, Structural)]
pub struct SinkFormat {
    /// Width in pixels.
    pub width: usize,
    /// Height in pixels.
    pub height: usize,
}

/// The first thing that went wrong in building a chain, if anything did. The
/// elements are made in the order source, decoder, sink, and only then linked
/// in that order.
pub open spec fn first_failure(chain: ChainReport) -> Option<ConstructionError> {
    if !chain.source {
        Some(ConstructionError::MissingElement(Element::Source))
    } else if !chain.decoder {
        Some(ConstructionError::MissingElement(Element::Decoder))
    } else if !chain.sink {
        Some(ConstructionError::MissingElement(Element::Sink))
    } else if !chain.source_to_decoder {
        Some(ConstructionError::LinkRefused(Element::Source, Element::Decoder))
    } else if !chain.decoder_to_sink {
        Some(ConstructionError::LinkRefused(Element::Decoder, Element::Sink))
    } else {
        None
    }
}

impl Element {
    /// The name under which the element is made.
    pub fn factory_name(self) -> (r: &'static str)
        ensures
            r@ == (match self {
                Element::Source => "v4l2src"@,
                Element::Decoder => "jpegdec"@,
                Element::Sink => "appsink"@,
            }),
    {
        match self {
            Element::Source => "v4l2src",
            Element::Decoder => "jpegdec",
            Element::Sink => "appsink",
        }
    }
}

impl ConstructionError {
    /// The kind of error: a missing element is a missing capability, a refused
    /// link a capability mismatch.
    pub open spec fn spec_kind(self) -> FrameError {
        match self {
            ConstructionError::MissingElement(_) => FrameError::MissingCapability,
            ConstructionError::LinkRefused(_, _) => FrameError::CapabilityMismatch,
        }
    }

    /// The kind of error.
    #[verifier::when_used_as_spec(spec_kind)]
    pub fn kind(self) -> (r: FrameError)
        ensures
            r == self.kind(),
            r.aborts_startup(),
    {
        match self {
            ConstructionError::MissingElement(_) => FrameError::MissingCapability,
            ConstructionError::LinkRefused(_, _) => FrameError::CapabilityMismatch,
        }
    }
}

impl SinkFormat {
    /// The media type that the sink asks for.
    pub fn media_type(&self) -> (r: &'static str)
        ensures
            r@ == "video/x-raw"@,
    {
        "video/x-raw"
    }

    /// The pixel format that the sink asks for.
    pub fn pixel_format(&self) -> (r: &'static str)
        ensures
            r@ == "RGB"@,
    {
        "RGB"
    }
}

/// The producer: what the sink calls for every decoded sample.
pub struct FrameProducer {
    slot: SharedFrameSlot,
}

impl FrameProducer {
    /// Width of the frames that the producer writes, in pixels.
    pub closed spec fn spec_width(&self) -> usize {
        self.slot.width()
    }

    /// Height of the frames that the producer writes, in pixels.
    pub closed spec fn spec_height(&self) -> usize {
        self.slot.height()
    }

    /// Whether the producer writes into the slot that `slot` reaches.
    pub closed spec fn writes_to(&self, slot: &SharedFrameSlot) -> bool {
        self.slot.same_slot(slot)
    }

    /// The format to ask of the chain: the dimensions of the shared slot.
    pub fn format(&self) -> (r: SinkFormat)
        ensures
            r.width == self.spec_width(),
            r.height == self.spec_height(),
    {
        SinkFormat { width: self.slot.width(), height: self.slot.height() }
    }

    /// Takes one decoded sample: validates it, and publishes it if it is sound.
    ///
    /// A sample that fails validation is dropped with its error, and the
    /// pipeline goes on. A sound sample is published unless the slot has been
    /// closed, in which case it is refused.
    pub fn new_sample(&self, sample: &Sample) -> (r: Delivery)
        ensures
            sample_payload(*sample) matches Err(e) ==> r == Delivery::Dropped(e),
            sample_payload(*sample) is Ok ==> r == Delivery::Published || r == Delivery::Refused,
    {
        self.slot.deliver(sample)
    }
}

/// Decides whether a capture chain stands, and if it does, makes the producer
/// that writes into `image_raw`.
///
/// The chain stands if all three elements could be made and both links held.
/// Otherwise the error is the first failure, in the order in which a chain is
/// put together.
pub fn create_pipeline(image_raw: SharedFrameSlot, chain: &ChainReport) -> (r: Result<
    FrameProducer,
    ConstructionError,
>)
    ensures
        match first_failure(*chain) {
            Some(e) => r == Err::<FrameProducer, ConstructionError>(e),
            None => r matches Ok(producer) && producer.writes_to(&image_raw)
                && producer.spec_width() == image_raw.width() && producer.spec_height()
                == image_raw.height(),
        },
{
    if !chain.source {
        Err(ConstructionError::MissingElement(Element::Source))
    } else if !chain.decoder {
        Err(ConstructionError::MissingElement(Element::Decoder))
    } else if !chain.sink {
        Err(ConstructionError::MissingElement(Element::Sink))
    } else if !chain.source_to_decoder {
        Err(ConstructionError::LinkRefused(Element::Source, Element::Decoder))
    } else if !chain.decoder_to_sink {
        Err(ConstructionError::LinkRefused(Element::Decoder, Element::Sink))
    } else {
        Ok(FrameProducer { slot: image_raw })
    }
}

/// The captured image: the shared slot that the producer fills, and the state
/// of the pipeline that feeds it.
pub struct AppSinkImage {
    state: PipelineState,
    image_raw: SharedFrameSlot,
}

impl AppSinkImage {
    /// The state of the pipeline.
    pub closed spec fn spec_state(&self) -> PipelineState {
        self.state
    }

    /// Whether `slot` reaches this image's frame.
    pub closed spec fn shares(&self, slot: &SharedFrameSlot) -> bool {
        slot.same_slot(&self.image_raw)
    }

    /// The slot always has the dimensions of the captured image.
    #[verifier::type_invariant]
    closed spec fn wf(&self) -> bool {
        self.image_raw.width() == FRAME_WIDTH && self.image_raw.height() == FRAME_HEIGHT
    }

    /// A blank image of 176 by 144 pixels whose pipeline is not built yet.
    pub fn new() -> (r: AppSinkImage)
        ensures
            r.state() == PipelineState::Uninitialized,
    {
        assert(frame_len(FRAME_WIDTH as nat, FRAME_HEIGHT as nat) == 101376);
        AppSinkImage {
            state: PipelineState::Uninitialized,
            image_raw: SharedFrameSlot::new(FRAME_WIDTH, FRAME_HEIGHT),
        }
    }

    /// The state of the pipeline.
    #[verifier::when_used_as_spec(spec_state)]
    pub fn state(&self) -> (r: PipelineState)
        ensures
            r == self.state(),
    {
        self.state
    }

    /// A handle to the shared slot, for the producer or for a reader.
    pub fn image_raw(&self) -> (r: SharedFrameSlot)
        ensures
            self.shares(&r),
            r.width() == FRAME_WIDTH,
            r.height() == FRAME_HEIGHT,
    {
        proof {
            use_type_invariant(self);
        }
        self.image_raw.share()
    }

    /// Takes one event of the pipeline's event channel and says what to do.
    ///
    /// When the event changes the state, the slot follows before this returns:
    /// once the pipeline has ended, no sample is written any more.
    pub fn handle_event(&mut self, event: PipelineEvent) -> (r: PipelineAction)
        ensures
            final(self).state() == next_state(old(self).state(), event),
            r == action_for(old(self).state(), event),
    {
        proof {
            use_type_invariant(&*self);
        }
        let (state, action) = step(self.state, event);
        if state != self.state {
            self.image_raw.follow(state);
            self.state = state;
        }
        action
    }

    /// A full copy of the current frame.
    pub fn read_frame(&self) -> (r: Vec<u8>)
        ensures
            r@.len() == frame_len(FRAME_WIDTH as nat, FRAME_HEIGHT as nat),
            is_published_frame(FRAME_WIDTH as nat, FRAME_HEIGHT as nat, r@),
    {
        proof {
            use_type_invariant(self);
        }
        self.image_raw.snapshot()
    }
}

/// One tick of the display: copies the current frame into the texture's bytes.
///
/// While the image is not loaded yet the tick is skipped: the texture stays as
/// it is and the answer is `false`.
pub fn copy_image(appsink: Option<&AppSinkImage>, texture: &mut Vec<u8>) -> (copied: bool)
    ensures
        copied == appsink is Some,
        copied ==> final(texture)@.len() == frame_len(FRAME_WIDTH as nat, FRAME_HEIGHT as nat)
            && is_published_frame(FRAME_WIDTH as nat, FRAME_HEIGHT as nat, final(texture)@),
        !copied ==> final(texture)@ == old(texture)@,
{
    match appsink {
        Some(image) => {
            *texture = image.read_frame();
            true
        },
        None => false,
    }
}

/// Makes captured images. What it is given to load does not matter: every load
/// makes one new blank image.
#[derive(Default)]
pub struct AppSinkImageLoader;

impl AppSinkImageLoader {
    /// The file extensions that stand for a captured image.
    pub fn extensions(&self) -> (r: Vec<&'static str>)
        ensures
            r@.len() == 1,
            r@[0]@ == "sinkimage"@,
    {
        vec!["sinkimage"]
    }

    /// Makes one new image, whatever the bytes are.
    pub fn load(&self, _bytes: &[u8]) -> (r: AppSinkImage)
        ensures
            r.state() == PipelineState::Uninitialized,
    {
        AppSinkImage::new()
    }
}

} // verus!
