use frame_handoff::error::FrameError;
use frame_handoff::pipeline::{step, ErrorMessage, PipelineAction, PipelineEvent, PipelineState};

fn fault() -> ErrorMessage {
    ErrorMessage::new(
        Some(String::from("/GstPipeline:pipeline0/GstV4l2Src:v4l2src0")),
        String::from("Could not read from resource."),
        Some(String::from("poll error 1: Device or resource busy")),
    )
}

fn all_events() -> Vec<PipelineEvent> {
    vec![
        PipelineEvent::Started,
        PipelineEvent::EndOfStream,
        PipelineEvent::Fault(fault()),
        PipelineEvent::Other,
        PipelineEvent::Stopped,
    ]
}

#[test]
fn error_message_keeps_its_parts() {
    let message = fault();
    assert_eq!(message.src, "/GstPipeline:pipeline0/GstV4l2Src:v4l2src0");
    assert_eq!(message.error, "Could not read from resource.");
    assert_eq!(message.debug, Some(String::from("poll error 1: Device or resource busy")));
}

#[test]
fn error_message_without_source_names_none() {
    let message = ErrorMessage::new(None, String::from("boom"), None);
    assert_eq!(message.src, "None");
    assert_eq!(message.error, "boom");
    assert_eq!(message.debug, None);
}

#[test]
fn start_takes_an_uninitialized_pipeline_to_playing() {
    assert_eq!(
        step(PipelineState::Uninitialized, PipelineEvent::Started),
        (PipelineState::Playing, PipelineAction::Wait)
    );
}

#[test]
fn uninitialized_pipeline_ignores_everything_but_start() {
    for event in all_events() {
        if event != PipelineEvent::Started {
            assert_eq!(
                step(PipelineState::Uninitialized, event),
                (PipelineState::Uninitialized, PipelineAction::Wait)
            );
        }
    }
}

#[test]
fn end_of_stream_while_playing_asks_for_a_stop() {
    assert_eq!(
        step(PipelineState::Playing, PipelineEvent::EndOfStream),
        (PipelineState::Eos, PipelineAction::Stop)
    );
    assert_eq!(
        step(PipelineState::Eos, PipelineEvent::Stopped),
        (PipelineState::Null, PipelineAction::Done)
    );
}

#[test]
fn fault_while_playing_asks_for_a_stop_and_hands_over_the_error() {
    assert_eq!(
        step(PipelineState::Playing, PipelineEvent::Fault(fault())),
        (PipelineState::Error, PipelineAction::StopAndReport(fault()))
    );
    assert_eq!(
        step(PipelineState::Error, PipelineEvent::Stopped),
        (PipelineState::Null, PipelineAction::Done)
    );
}

#[test]
fn playing_pipeline_waits_on_other_messages() {
    for event in [PipelineEvent::Other, PipelineEvent::Started, PipelineEvent::Stopped] {
        assert_eq!(
            step(PipelineState::Playing, event),
            (PipelineState::Playing, PipelineAction::Wait)
        );
    }
}

#[test]
fn stopping_pipeline_waits_until_it_is_stopped() {
    for state in [PipelineState::Eos, PipelineState::Error] {
        for event in all_events() {
            if event != PipelineEvent::Stopped {
                assert_eq!(step(state, event), (state, PipelineAction::Wait));
            }
        }
    }
}

#[test]
fn null_is_terminal() {
    for event in all_events() {
        assert_eq!(
            step(PipelineState::Null, event),
            (PipelineState::Null, PipelineAction::Done)
        );
    }
}

#[test]
fn no_event_moves_a_pipeline_back() {
    fn rank(state: PipelineState) -> u8 {
        match state {
            PipelineState::Uninitialized => 0,
            PipelineState::Playing => 1,
            PipelineState::Error | PipelineState::Eos => 2,
            PipelineState::Null => 3,
        }
    }
    let states = [
        PipelineState::Uninitialized,
        PipelineState::Playing,
        PipelineState::Error,
        PipelineState::Eos,
        PipelineState::Null,
    ];
    for state in states {
        for event in all_events() {
            let (next, _) = step(state, event);
            assert!(next == state || rank(next) == rank(state) + 1);
        }
    }
}

#[test]
fn only_playing_delivers_samples() {
    assert!(!PipelineState::Uninitialized.delivers_samples());
    assert!(PipelineState::Playing.delivers_samples());
    assert!(!PipelineState::Eos.delivers_samples());
    assert!(!PipelineState::Error.delivers_samples());
    assert!(!PipelineState::Null.delivers_samples());
}

#[test]
fn reported_error_is_a_pipeline_fault() {
    assert_eq!(fault().kind(), FrameError::PipelineFault);
    assert!(fault().kind().is_terminal());
    assert!(!fault().kind().drops_sample());
}

#[test]
fn pipeline_has_ended_once_it_is_past_playing() {
    assert!(!PipelineState::Uninitialized.has_ended());
    assert!(!PipelineState::Playing.has_ended());
    assert!(PipelineState::Eos.has_ended());
    assert!(PipelineState::Error.has_ended());
    assert!(PipelineState::Null.has_ended());
}
