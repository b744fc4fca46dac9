use frame_handoff::consumer::{FrameConsumer, UploadOutcome};
use frame_handoff::frame::{Dimensions, Frame};
use frame_handoff::gl_bridge::{
    BridgePhase, CurrentContext, GlApi, GlContextBridge, GlPlatform, NativeContext,
};
use frame_handoff::pipeline::{
    BusAction, BusMessage, EosPolicy, Hop, PipelineController, PipelineError, PipelineState,
    SampleOutcome, Teardown, Topology,
};
use frame_handoff::slot::FrameSlot;
use frame_handoff::topology::{ElementProbe, ElementRole, MediaSource, SinkCapabilities, Stage};

const OK: Option<Hop> = None;

fn all_elements() -> ElementProbe {
    ElementProbe {
        test_source: true,
        uri_source: true,
        converter: true,
        sink: true,
        gl_sink_bin: true,
        gl_upload: true,
    }
}

fn cpu_caps() -> SinkCapabilities {
    SinkCapabilities { stage: Stage::ColorConvert, max_lateness_us: 20_000 }
}

fn gl_caps() -> SinkCapabilities {
    SinkCapabilities { stage: Stage::GlUpload, max_lateness_us: 20_000 }
}

fn clip() -> MediaSource {
    MediaSource::Uri("file:///tmp/clip.mp4".to_string())
}

fn playing(policy: EosPolicy) -> PipelineController {
    let mut controller = PipelineController::new(policy);
    controller.configure(clip(), cpu_caps(), &all_elements()).expect("every element is there");
    controller.start(OK).expect("the engine accepts");
    controller
}

fn sample(n: u8) -> Vec<u8> {
    vec![n; 2 * 2 * 4]
}

fn wrapped_bridge() -> GlContextBridge {
    let mut bridge = GlContextBridge::new(NativeContext {
        handle: 77,
        platform: GlPlatform::Wgl,
        api: GlApi::OpenGl,
    });
    bridge.begin_wrap(CurrentContext { device: 5, context: 6 });
    for _ in 0..5 {
        bridge.advance(true);
    }
    assert_eq!(bridge.phase(), BridgePhase::Shared);
    bridge
}

#[test]
fn new_controller_is_null_and_unconfigured() {
    let controller = PipelineController::new(EosPolicy::Loop);
    assert_eq!(controller.state(), &PipelineState::Null);
    assert_eq!(controller.policy(), EosPolicy::Loop);
    assert_eq!(controller.topology(), None);
}

#[test]
fn configure_makes_the_pipeline_ready() {
    let mut controller = PipelineController::new(EosPolicy::Stop);
    assert_eq!(controller.configure(clip(), cpu_caps(), &all_elements()), Ok(()));
    assert_eq!(controller.state(), &PipelineState::Ready);
    assert_eq!(controller.topology(), Some(&Topology { source: clip(), caps: cpu_caps() }));
}

#[test]
fn configure_reports_the_first_missing_element() {
    let mut probe = all_elements();
    probe.gl_upload = false;
    let mut controller = PipelineController::new(EosPolicy::Stop);
    assert_eq!(
        controller.configure(MediaSource::TestPattern, gl_caps(), &probe),
        Err(PipelineError::ElementCreation(ElementRole::GlUpload))
    );
    probe.gl_sink_bin = false;
    assert_eq!(
        controller.configure(MediaSource::TestPattern, gl_caps(), &probe),
        Err(PipelineError::ElementCreation(ElementRole::GlSinkBin))
    );
    probe.sink = false;
    assert_eq!(
        controller.configure(MediaSource::TestPattern, gl_caps(), &probe),
        Err(PipelineError::ElementCreation(ElementRole::Sink))
    );
    probe.test_source = false;
    assert_eq!(
        controller.configure(MediaSource::TestPattern, gl_caps(), &probe),
        Err(PipelineError::ElementCreation(ElementRole::TestSource))
    );
    // No partial pipeline is left behind.
    assert_eq!(controller.state(), &PipelineState::Null);
    assert_eq!(controller.topology(), None);
    assert_eq!(controller.start_plan(), Err(PipelineError::NotConfigured));
}

#[test]
fn configure_per_source_and_stage() {
    let mut probe = all_elements();
    probe.uri_source = false;
    probe.converter = false;
    let mut controller = PipelineController::new(EosPolicy::Stop);
    assert_eq!(
        controller.configure(clip(), cpu_caps(), &probe),
        Err(PipelineError::ElementCreation(ElementRole::UriSource))
    );
    assert_eq!(
        controller.configure(MediaSource::TestPattern, cpu_caps(), &probe),
        Err(PipelineError::ElementCreation(ElementRole::Converter))
    );
    let direct = SinkCapabilities { stage: Stage::Direct, max_lateness_us: 0 };
    assert_eq!(controller.configure(MediaSource::TestPattern, direct, &probe), Ok(()));
    assert_eq!(controller.state(), &PipelineState::Ready);
}

#[test]
fn configure_needs_a_stopped_pipeline() {
    let mut controller = playing(EosPolicy::Stop);
    assert_eq!(
        controller.configure(MediaSource::TestPattern, gl_caps(), &all_elements()),
        Err(PipelineError::NotStopped)
    );
    assert_eq!(controller.state(), &PipelineState::Playing);
    assert_eq!(controller.topology(), Some(&Topology { source: clip(), caps: cpu_caps() }));
    controller.stop();
    assert_eq!(controller.configure(MediaSource::TestPattern, gl_caps(), &all_elements()), Ok(()));
    assert_eq!(
        controller.topology(),
        Some(&Topology { source: MediaSource::TestPattern, caps: gl_caps() })
    );
}

#[test]
fn start_plan_per_state() {
    let mut controller = PipelineController::new(EosPolicy::Stop);
    assert_eq!(controller.start_plan(), Err(PipelineError::NotConfigured));
    controller.configure(clip(), cpu_caps(), &all_elements()).unwrap();
    assert_eq!(controller.start_plan(), Ok(vec![Hop::ToPlaying]));
    controller.start(OK).unwrap();
    assert_eq!(controller.start_plan(), Ok(Vec::new()));
    controller.on_message(BusMessage::EndOfStream);
    assert_eq!(controller.start_plan(), Err(PipelineError::NotStopped));
    controller.stop();
    assert_eq!(controller.start_plan(), Ok(vec![Hop::ToReady, Hop::ToPlaying]));
}

#[test]
fn start_plays_when_the_engine_accepts() {
    let mut controller = PipelineController::new(EosPolicy::Stop);
    assert_eq!(controller.start(OK), Err(PipelineError::NotConfigured));
    assert_eq!(controller.state(), &PipelineState::Null);
    controller.configure(clip(), cpu_caps(), &all_elements()).unwrap();
    assert_eq!(controller.start(OK), Ok(()));
    assert_eq!(controller.state(), &PipelineState::Playing);
    // Starting what plays changes nothing.
    assert_eq!(controller.start(OK), Ok(()));
    assert_eq!(controller.state(), &PipelineState::Playing);
}

#[test]
fn start_stops_at_the_first_refusal() {
    let mut controller = PipelineController::new(EosPolicy::Stop);
    controller.configure(clip(), cpu_caps(), &all_elements()).unwrap();
    assert_eq!(
        controller.start(Some(Hop::ToPlaying)),
        Err(PipelineError::StateTransition(Hop::ToPlaying))
    );
    assert_eq!(controller.state(), &PipelineState::Ready);

    controller.stop();
    assert_eq!(controller.state(), &PipelineState::Null);
    assert_eq!(
        controller.start(Some(Hop::ToReady)),
        Err(PipelineError::StateTransition(Hop::ToReady))
    );
    assert_eq!(controller.state(), &PipelineState::Null);
    assert_eq!(
        controller.start(Some(Hop::ToPlaying)),
        Err(PipelineError::StateTransition(Hop::ToPlaying))
    );
    assert_eq!(controller.state(), &PipelineState::Ready);
    assert_eq!(controller.start(OK), Ok(()));
    assert_eq!(controller.state(), &PipelineState::Playing);
}

#[test]
fn stop_is_idempotent() {
    let mut controller = playing(EosPolicy::Loop);
    assert_eq!(
        controller.stop(),
        Teardown { release_pipeline: true, release_context: false, restore: None }
    );
    assert_eq!(controller.state(), &PipelineState::Null);
    let nothing = Teardown { release_pipeline: false, release_context: false, restore: None };
    assert_eq!(controller.stop(), nothing);
    assert_eq!(controller.stop(), nothing);
    assert_eq!(controller.state(), &PipelineState::Null);
    assert_eq!(controller.topology(), Some(&Topology { source: clip(), caps: cpu_caps() }));
}

#[test]
fn stop_releases_the_shared_context() {
    let mut controller = PipelineController::new(EosPolicy::Stop);
    controller.configure(MediaSource::TestPattern, gl_caps(), &all_elements()).unwrap();
    assert!(controller.attach_bridge(wrapped_bridge()).is_none());
    controller.start(OK).unwrap();
    assert_eq!(
        controller.stop(),
        Teardown { release_pipeline: true, release_context: true, restore: None }
    );
    let asks = BusMessage::NeedContext {
        context_type: "gst.gl.GLDisplay".to_string(),
        from_element: true,
    };
    assert_eq!(controller.on_message(asks), BusAction::Nothing);
}

#[test]
fn stop_hands_back_a_context_taken_mid_wrap() {
    let mut bridge = GlContextBridge::new(NativeContext {
        handle: 1,
        platform: GlPlatform::Egl,
        api: GlApi::Gles2,
    });
    bridge.begin_wrap(CurrentContext { device: 11, context: 12 });
    bridge.advance(true);
    let mut controller = PipelineController::new(EosPolicy::Stop);
    controller.attach_bridge(bridge);
    assert_eq!(
        controller.stop(),
        Teardown {
            release_pipeline: false,
            release_context: true,
            restore: Some(CurrentContext { device: 11, context: 12 }),
        }
    );
}

#[test]
fn attach_returns_the_previous_bridge() {
    let mut controller = PipelineController::new(EosPolicy::Stop);
    assert!(controller.attach_bridge(wrapped_bridge()).is_none());
    let idle = GlContextBridge::new(NativeContext {
        handle: 2,
        platform: GlPlatform::Glx,
        api: GlApi::OpenGl3,
    });
    let previous = controller.attach_bridge(idle).expect("a bridge was attached");
    assert_eq!(previous.phase(), BridgePhase::Shared);
    let asks = BusMessage::NeedContext {
        context_type: "gst.gl.app_context".to_string(),
        from_element: true,
    };
    assert_eq!(controller.on_message(asks), BusAction::Nothing);
}

#[test]
fn need_context_is_answered_by_the_bridge() {
    let mut controller = PipelineController::new(EosPolicy::Stop);
    let display = || BusMessage::NeedContext {
        context_type: "gst.gl.GLDisplay".to_string(),
        from_element: true,
    };
    let app = |from_element: bool| BusMessage::NeedContext {
        context_type: "gst.gl.app_context".to_string(),
        from_element,
    };
    assert_eq!(controller.on_message(display()), BusAction::Nothing);
    controller.attach_bridge(wrapped_bridge());
    // Requests arrive while the pipeline is being started: the state does not matter.
    assert_eq!(controller.on_message(display()), BusAction::ProvideDisplay);
    assert_eq!(controller.on_message(app(true)), BusAction::ProvideAppContext);
    assert_eq!(controller.on_message(app(false)), BusAction::Nothing);
    let other = BusMessage::NeedContext {
        context_type: "gst.gl.context.WGL".to_string(),
        from_element: true,
    };
    assert_eq!(controller.on_message(other), BusAction::Nothing);
    assert_eq!(controller.state(), &PipelineState::Null);
}

#[test]
fn eos_loop_scenario() {
    let mut controller = playing(EosPolicy::Loop);
    let mut slot = FrameSlot::new();
    for n in 1u8..=3 {
        assert_eq!(controller.sample_ready(&mut slot, sample(n), 2, 2), SampleOutcome::Published);
    }
    assert_eq!(slot.latest().and_then(|f| f.pixels()), Some(&sample(3)));
    // After the third sample the stream ends: the answer is a seek to the start,
    // and the pipeline plays on.
    assert_eq!(controller.on_message(BusMessage::EndOfStream), BusAction::SeekToStart);
    assert_eq!(controller.state(), &PipelineState::Playing);
    // Frame production resumes from sample 1.
    assert_eq!(controller.sample_ready(&mut slot, sample(1), 2, 2), SampleOutcome::Published);
    assert_eq!(slot.latest().and_then(|f| f.pixels()), Some(&sample(1)));
    assert_eq!(
        FrameSlot::try_take_latest(Some(&slot)).as_deref(),
        Frame::from_pixels(2, 2, sample(1)).as_ref()
    );
}

#[test]
fn eos_stop_scenario() {
    let mut controller = playing(EosPolicy::Stop);
    let mut slot = FrameSlot::new();
    for n in 1u8..=3 {
        assert_eq!(controller.sample_ready(&mut slot, sample(n), 2, 2), SampleOutcome::Published);
    }
    assert_eq!(controller.on_message(BusMessage::EndOfStream), BusAction::Nothing);
    assert_eq!(controller.state(), &PipelineState::EndOfStream);
    // No further frames are published.
    assert_eq!(controller.sample_ready(&mut slot, sample(4), 2, 2), SampleOutcome::NotPlaying);
    assert_eq!(controller.texture_ready(&mut slot, 9, 2, 2), SampleOutcome::NotPlaying);
    assert_eq!(slot.latest().and_then(|f| f.pixels()), Some(&sample(3)));
    // A second end of stream changes nothing.
    assert_eq!(controller.on_message(BusMessage::EndOfStream), BusAction::Nothing);
    assert_eq!(controller.state(), &PipelineState::EndOfStream);
}

#[test]
fn error_scenario() {
    let mut controller = playing(EosPolicy::Loop);
    let mut slot = FrameSlot::new();
    let mut consumer = FrameConsumer::new();
    assert_eq!(controller.sample_ready(&mut slot, sample(1), 2, 2), SampleOutcome::Published);
    assert_eq!(controller.sample_ready(&mut slot, sample(2), 2, 2), SampleOutcome::Published);
    assert_eq!(consumer.tick(Some(&slot)).0, UploadOutcome::Allocated);
    let last = slot.latest().cloned();

    let failure = BusMessage::Error("decode failure".to_string());
    assert_eq!(controller.on_message(failure), BusAction::Nothing);
    assert_eq!(controller.state(), &PipelineState::Error("decode failure".to_string()));
    assert_eq!(slot.latest().cloned(), last);

    // The render loop keeps running on the last frame.
    for _ in 0..3 {
        assert_eq!(FrameSlot::try_take_latest(Some(&slot)).as_deref(), last.as_ref());
        assert_eq!(consumer.tick(Some(&slot)).0, UploadOutcome::Updated);
    }
    assert_eq!(controller.sample_ready(&mut slot, sample(3), 2, 2), SampleOutcome::NotPlaying);
    assert_eq!(FrameSlot::try_take_latest(Some(&slot)).as_deref(), last.as_ref());
    assert_eq!(last, Frame::from_pixels(2, 2, sample(2)));
    // Not even the loop policy revives a failed pipeline.
    assert_eq!(controller.on_message(BusMessage::EndOfStream), BusAction::Nothing);
    assert_eq!(controller.state(), &PipelineState::Error("decode failure".to_string()));
}

#[test]
fn error_is_recovered_by_stop_and_start() {
    let mut controller = playing(EosPolicy::Stop);
    controller.on_message(BusMessage::Error("lost the source".to_string()));
    assert_eq!(controller.start(OK), Err(PipelineError::NotStopped));
    assert_eq!(controller.state(), &PipelineState::Error("lost the source".to_string()));
    controller.stop();
    assert_eq!(controller.start(OK), Ok(()));
    assert_eq!(controller.state(), &PipelineState::Playing);
    let mut slot = FrameSlot::new();
    assert_eq!(controller.sample_ready(&mut slot, sample(1), 2, 2), SampleOutcome::Published);
}

#[test]
fn messages_to_a_stopped_pipeline_are_ignored() {
    let mut controller = PipelineController::new(EosPolicy::Stop);
    assert_eq!(controller.on_message(BusMessage::EndOfStream), BusAction::Nothing);
    assert_eq!(controller.on_message(BusMessage::Error("late".to_string())), BusAction::Nothing);
    assert_eq!(controller.state(), &PipelineState::Null);
}

#[test]
fn error_reaches_a_ready_pipeline_and_the_latest_error_is_kept() {
    let mut controller = PipelineController::new(EosPolicy::Stop);
    controller.configure(clip(), cpu_caps(), &all_elements()).unwrap();
    controller.on_message(BusMessage::Error("first".to_string()));
    assert_eq!(controller.state(), &PipelineState::Error("first".to_string()));
    controller.on_message(BusMessage::Error("second".to_string()));
    assert_eq!(controller.state(), &PipelineState::Error("second".to_string()));
}

#[test]
fn end_of_stream_reaches_a_ready_pipeline() {
    let mut controller = PipelineController::new(EosPolicy::Stop);
    controller.configure(clip(), cpu_caps(), &all_elements()).unwrap();
    assert_eq!(controller.on_message(BusMessage::EndOfStream), BusAction::Nothing);
    assert_eq!(controller.state(), &PipelineState::EndOfStream);
    let mut controller = PipelineController::new(EosPolicy::Loop);
    controller.configure(clip(), cpu_caps(), &all_elements()).unwrap();
    assert_eq!(controller.on_message(BusMessage::EndOfStream), BusAction::SeekToStart);
    assert_eq!(controller.state(), &PipelineState::Ready);
}

#[test]
fn samples_are_dropped_unless_playing() {
    let mut controller = PipelineController::new(EosPolicy::Stop);
    let mut slot = FrameSlot::new();
    assert_eq!(controller.sample_ready(&mut slot, sample(1), 2, 2), SampleOutcome::NotPlaying);
    controller.configure(clip(), cpu_caps(), &all_elements()).unwrap();
    assert_eq!(controller.sample_ready(&mut slot, sample(1), 2, 2), SampleOutcome::NotPlaying);
    assert!(slot.latest().is_none());
    controller.start(OK).unwrap();
    assert_eq!(controller.sample_ready(&mut slot, sample(1), 2, 2), SampleOutcome::Published);
    controller.stop();
    assert_eq!(controller.sample_ready(&mut slot, sample(2), 2, 2), SampleOutcome::NotPlaying);
    assert_eq!(slot.latest().and_then(|f| f.pixels()), Some(&sample(1)));
}

#[test]
fn malformed_and_missized_samples_are_dropped() {
    let controller = playing(EosPolicy::Stop);
    let mut slot = FrameSlot::with_size(2, 2);
    assert_eq!(controller.sample_ready(&mut slot, vec![0u8; 15], 2, 2), SampleOutcome::Malformed);
    assert_eq!(controller.sample_ready(&mut slot, Vec::new(), 2, 2), SampleOutcome::Malformed);
    assert_eq!(
        controller.sample_ready(&mut slot, vec![0u8; 4 * 4 * 4], 4, 4),
        SampleOutcome::SizeMismatch
    );
    assert_eq!(controller.texture_ready(&mut slot, 3, 4, 4), SampleOutcome::SizeMismatch);
    assert!(slot.latest().is_none());
    assert_eq!(controller.sample_ready(&mut slot, sample(8), 2, 2), SampleOutcome::Published);
    assert_eq!(controller.sample_ready(&mut slot, vec![0u8; 17], 2, 2), SampleOutcome::Malformed);
    assert_eq!(slot.latest().and_then(|f| f.pixels()), Some(&sample(8)));
}

#[test]
fn texture_samples_are_published_as_texture_frames() {
    let controller = playing(EosPolicy::Loop);
    let mut slot = FrameSlot::with_size(320, 240);
    assert_eq!(controller.texture_ready(&mut slot, 31, 320, 240), SampleOutcome::Published);
    let seen = FrameSlot::try_take_latest(Some(&slot)).expect("a frame was published");
    assert_eq!(seen.texture(), Some(31));
    assert_eq!(seen.dimensions(), Dimensions { width: 320, height: 240 });
    let mut consumer = FrameConsumer::new();
    assert_eq!(consumer.tick(Some(&slot)).0, UploadOutcome::Bound);
}

#[test]
fn clones_of_states_and_messages_are_equal() {
    let state = PipelineState::Error("decode failure".to_string());
    assert_eq!(state.clone(), state);
    assert_eq!(PipelineState::Playing.clone(), PipelineState::Playing);
    let msg = BusMessage::NeedContext { context_type: "x".to_string(), from_element: true };
    assert_eq!(msg.clone(), msg);
    let topology = Topology { source: clip(), caps: gl_caps() };
    assert_eq!(topology.clone(), topology);
}
