use frame_handoff::appsink::{
    copy_image, create_pipeline, AppSinkImage, AppSinkImageLoader, ChainReport,
    ConstructionError, Element, FRAME_HEIGHT, FRAME_WIDTH,
};
use frame_handoff::error::FrameError;
use frame_handoff::pipeline::{ErrorMessage, PipelineAction, PipelineEvent, PipelineState};
use frame_handoff::sample::Sample;
use frame_handoff::shared::SharedFrameSlot;
use frame_handoff::slot::Delivery;

fn sound_chain() -> ChainReport {
    ChainReport {
        source: true,
        decoder: true,
        sink: true,
        source_to_decoder: true,
        decoder_to_sink: true,
    }
}

#[test]
fn image_is_176_by_144() {
    assert_eq!(FRAME_WIDTH, 176);
    assert_eq!(FRAME_HEIGHT, 144);
    let image = AppSinkImage::new();
    assert_eq!(image.state(), PipelineState::Uninitialized);
    let slot = image.image_raw();
    assert_eq!(slot.width(), 176);
    assert_eq!(slot.height(), 144);
    assert_eq!(image.read_frame(), vec![0u8; 176 * 144 * 4]);
}

#[test]
fn elements_are_made_under_their_names() {
    assert_eq!(Element::Source.factory_name(), "v4l2src");
    assert_eq!(Element::Decoder.factory_name(), "jpegdec");
    assert_eq!(Element::Sink.factory_name(), "appsink");
}

#[test]
fn sound_chain_gives_a_producer_for_the_slot() {
    let slot = SharedFrameSlot::new(FRAME_WIDTH, FRAME_HEIGHT);
    let producer = match create_pipeline(slot.share(), &sound_chain()) {
        Ok(producer) => producer,
        Err(e) => panic!("a sound chain was refused: {:?}", e),
    };
    let format = producer.format();
    assert_eq!(format.width, 176);
    assert_eq!(format.height, 144);
    assert_eq!(format.media_type(), "video/x-raw");
    assert_eq!(format.pixel_format(), "RGB");
    let sample = vec![0x80u8; 176 * 144 * 3];
    assert_eq!(producer.new_sample(&Sample::Readable(&sample)), Delivery::Published);
    assert_eq!(&slot.snapshot()[..8], &[0x80, 0x80, 0x80, 0, 0x80, 0x80, 0x80, 0]);
}

#[test]
fn missing_element_is_named_in_the_order_of_construction() {
    let cases = [
        (ChainReport { source: false, ..sound_chain() }, Element::Source),
        (ChainReport { decoder: false, ..sound_chain() }, Element::Decoder),
        (ChainReport { sink: false, ..sound_chain() }, Element::Sink),
        (
            ChainReport {
                source: false,
                decoder: false,
                sink: false,
                source_to_decoder: false,
                decoder_to_sink: false,
            },
            Element::Source,
        ),
        (ChainReport { decoder: false, sink: false, ..sound_chain() }, Element::Decoder),
    ];
    for (chain, element) in cases {
        let slot = SharedFrameSlot::new(2, 2);
        match create_pipeline(slot, &chain) {
            Ok(_) => panic!("a chain without {:?} was accepted", element),
            Err(e) => {
                assert_eq!(e, ConstructionError::MissingElement(element));
                assert_eq!(e.kind(), FrameError::MissingCapability);
            },
        }
    }
}

#[test]
fn refused_link_is_a_capability_mismatch() {
    let cases = [
        (
            ChainReport { source_to_decoder: false, ..sound_chain() },
            ConstructionError::LinkRefused(Element::Source, Element::Decoder),
        ),
        (
            ChainReport { decoder_to_sink: false, ..sound_chain() },
            ConstructionError::LinkRefused(Element::Decoder, Element::Sink),
        ),
        (
            ChainReport { source_to_decoder: false, decoder_to_sink: false, ..sound_chain() },
            ConstructionError::LinkRefused(Element::Source, Element::Decoder),
        ),
    ];
    for (chain, expected) in cases {
        let slot = SharedFrameSlot::new(2, 2);
        match create_pipeline(slot, &chain) {
            Ok(_) => panic!("a chain with a refused link was accepted"),
            Err(e) => {
                assert_eq!(e, expected);
                assert_eq!(e.kind(), FrameError::CapabilityMismatch);
            },
        }
    }
}

#[test]
fn errors_fall_into_three_classes() {
    let all = [
        FrameError::MissingCapability,
        FrameError::CapabilityMismatch,
        FrameError::DataAcquisitionFailure,
        FrameError::BufferAccessFailure,
        FrameError::FormatInterpretationFailure,
        FrameError::PipelineFault,
        FrameError::PoisonedSharedState,
    ];
    for e in all {
        let classes = [e.aborts_startup(), e.drops_sample(), e.is_terminal()];
        assert_eq!(classes.iter().filter(|c| **c).count(), 1);
    }
    assert!(FrameError::MissingCapability.aborts_startup());
    assert!(FrameError::CapabilityMismatch.aborts_startup());
    assert!(FrameError::DataAcquisitionFailure.drops_sample());
    assert!(FrameError::BufferAccessFailure.drops_sample());
    assert!(FrameError::FormatInterpretationFailure.drops_sample());
    assert!(FrameError::PipelineFault.is_terminal());
    assert!(FrameError::PoisonedSharedState.is_terminal());
}

#[test]
fn display_tick_is_skipped_until_the_image_is_loaded() {
    let mut texture = vec![1u8, 2, 3];
    assert!(!copy_image(None, &mut texture));
    assert_eq!(texture, vec![1, 2, 3]);
}

#[test]
fn display_tick_copies_the_whole_frame() {
    let image = AppSinkImage::new();
    let producer = create_pipeline(image.image_raw(), &sound_chain()).ok().unwrap();
    let sample = vec![0x11u8; 176 * 144 * 3];
    assert_eq!(producer.new_sample(&Sample::Readable(&sample)), Delivery::Published);
    let mut texture = Vec::new();
    assert!(copy_image(Some(&image), &mut texture));
    assert_eq!(texture.len(), 176 * 144 * 4);
    assert_eq!(&texture[..4], &[0x11, 0x11, 0x11, 0]);
    assert_eq!(texture, image.read_frame());
}

#[test]
fn loader_makes_a_fresh_image_whatever_the_bytes() {
    let loader = AppSinkImageLoader::default();
    assert_eq!(loader.extensions(), vec!["sinkimage"]);
    for bytes in [&b""[..], &b"anything"[..], &[0xFFu8; 64][..]] {
        let image = loader.load(bytes);
        assert_eq!(image.state(), PipelineState::Uninitialized);
        assert_eq!(image.read_frame(), vec![0u8; 176 * 144 * 4]);
    }
}

#[test]
fn end_to_end_all_ff_sample() {
    let image = AppSinkImage::new();
    let producer = create_pipeline(image.image_raw(), &sound_chain()).ok().unwrap();
    let sample = vec![0xFFu8; 176 * 144 * 3];
    assert_eq!(producer.new_sample(&Sample::Readable(&sample)), Delivery::Published);
    let frame = image.read_frame();
    assert_eq!(&frame[..4], &[0xFF, 0xFF, 0xFF, 0x00]);
}

#[test]
fn fault_mid_stream_ends_in_null_and_freezes_the_last_frame() {
    let mut image = AppSinkImage::new();
    let producer = create_pipeline(image.image_raw(), &sound_chain()).ok().unwrap();
    assert_eq!(image.handle_event(PipelineEvent::Started), PipelineAction::Wait);
    assert_eq!(image.state(), PipelineState::Playing);

    let good = vec![0x42u8; 176 * 144 * 3];
    assert_eq!(producer.new_sample(&Sample::Readable(&good)), Delivery::Published);
    assert_eq!(image.handle_event(PipelineEvent::Other), PipelineAction::Wait);
    let last_good = image.read_frame();
    assert_eq!(&last_good[..4], &[0x42, 0x42, 0x42, 0]);

    let message = ErrorMessage::new(
        Some(String::from("/GstPipeline:pipeline0/GstJpegDec:jpegdec0")),
        String::from("Failed to decode JPEG image"),
        None,
    );
    assert_eq!(
        image.handle_event(PipelineEvent::Fault(message.clone())),
        PipelineAction::StopAndReport(message)
    );
    assert_eq!(image.state(), PipelineState::Error);
    assert_eq!(image.handle_event(PipelineEvent::Stopped), PipelineAction::Done);
    assert_eq!(image.state(), PipelineState::Null);

    let late = vec![0x99u8; 176 * 144 * 3];
    assert_eq!(producer.new_sample(&Sample::Readable(&late)), Delivery::Refused);
    assert_eq!(image.read_frame(), last_good);
    let mut texture = Vec::new();
    assert!(copy_image(Some(&image), &mut texture));
    assert_eq!(texture, last_good);

    assert_eq!(image.handle_event(PipelineEvent::Started), PipelineAction::Done);
    assert_eq!(image.state(), PipelineState::Null);
    assert_eq!(producer.new_sample(&Sample::Readable(&late)), Delivery::Refused);
    assert_eq!(image.read_frame(), last_good);
}

#[test]
fn end_of_stream_ends_in_null_and_keeps_the_last_frame() {
    let mut image = AppSinkImage::new();
    let producer = create_pipeline(image.image_raw(), &sound_chain()).ok().unwrap();
    assert_eq!(image.handle_event(PipelineEvent::Started), PipelineAction::Wait);
    let good = vec![0x07u8; 176 * 144 * 3];
    assert_eq!(producer.new_sample(&Sample::Readable(&good)), Delivery::Published);
    assert_eq!(image.handle_event(PipelineEvent::EndOfStream), PipelineAction::Stop);
    assert_eq!(image.state(), PipelineState::Eos);
    assert_eq!(producer.new_sample(&Sample::Readable(&[1u8; 3])), Delivery::Refused);
    assert_eq!(image.handle_event(PipelineEvent::Stopped), PipelineAction::Done);
    assert_eq!(image.state(), PipelineState::Null);
    assert_eq!(&image.read_frame()[..4], &[7, 7, 7, 0]);
}

#[test]
fn per_sample_errors_do_not_stop_the_pipeline() {
    let mut image = AppSinkImage::new();
    let producer = create_pipeline(image.image_raw(), &sound_chain()).ok().unwrap();
    assert_eq!(image.handle_event(PipelineEvent::Started), PipelineAction::Wait);
    assert_eq!(
        producer.new_sample(&Sample::Readable(&[1u8; 4])),
        Delivery::Dropped(FrameError::FormatInterpretationFailure)
    );
    assert_eq!(image.state(), PipelineState::Playing);
    let good = vec![0x21u8; 176 * 144 * 3];
    assert_eq!(producer.new_sample(&Sample::Readable(&good)), Delivery::Published);
    assert_eq!(&image.read_frame()[..4], &[0x21, 0x21, 0x21, 0]);
}
