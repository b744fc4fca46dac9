use frame_handoff::gl_bridge::{
    classify, BridgeCommand, BridgeError, BridgePhase, ContextKind, ContextReply, CurrentContext,
    GlApi, GlContextBridge, GlPlatform, NativeContext,
};

fn native() -> NativeContext {
    NativeContext { handle: 0x1234, platform: GlPlatform::Wgl, api: GlApi::OpenGl }
}

fn current() -> CurrentContext {
    CurrentContext { device: 0xD0, context: 0xC0 }
}

fn shared_bridge() -> GlContextBridge {
    let mut bridge = GlContextBridge::new(native());
    bridge.begin_wrap(current());
    for _ in 0..5 {
        bridge.advance(true);
    }
    bridge
}

#[test]
fn context_types_are_told_apart() {
    assert_eq!(classify("gst.gl.GLDisplay"), ContextKind::Display);
    assert_eq!(classify("gst.gl.app_context"), ContextKind::Application);
    assert_eq!(classify("gst.gl.context.WGL"), ContextKind::Other);
    assert_eq!(classify(""), ContextKind::Other);
    assert_eq!(classify("gst.gl.gldisplay"), ContextKind::Other);
}

#[test]
fn new_bridge_is_idle() {
    let bridge = GlContextBridge::new(native());
    assert_eq!(bridge.phase(), BridgePhase::Idle);
    assert_eq!(bridge.native(), native());
}

#[test]
fn wrapping_runs_through_its_five_steps() {
    let mut bridge = GlContextBridge::new(native());
    assert_eq!(bridge.begin_wrap(current()), BridgeCommand::ReleaseCurrent);
    assert_eq!(bridge.phase(), BridgePhase::Detaching);
    assert_eq!(bridge.advance(true), BridgeCommand::Wrap(native()));
    assert_eq!(bridge.phase(), BridgePhase::Wrapping);
    assert_eq!(bridge.advance(true), BridgeCommand::Restore(current()));
    assert_eq!(bridge.phase(), BridgePhase::Restoring { failure: None });
    assert_eq!(bridge.advance(true), BridgeCommand::Activate);
    assert_eq!(bridge.phase(), BridgePhase::Activating);
    assert_eq!(bridge.advance(true), BridgeCommand::FillInfo);
    assert_eq!(bridge.phase(), BridgePhase::Describing);
    assert_eq!(bridge.advance(true), BridgeCommand::Rest);
    assert_eq!(bridge.phase(), BridgePhase::Shared);
    // Nothing more to do, whatever is reported.
    assert_eq!(bridge.advance(false), BridgeCommand::Rest);
    assert_eq!(bridge.phase(), BridgePhase::Shared);
}

#[test]
fn wrapping_starts_once_only() {
    let mut bridge = shared_bridge();
    assert_eq!(bridge.begin_wrap(CurrentContext { device: 1, context: 2 }), BridgeCommand::Rest);
    assert_eq!(bridge.phase(), BridgePhase::Shared);
    let mut bridge = GlContextBridge::new(native());
    bridge.begin_wrap(current());
    assert_eq!(bridge.begin_wrap(CurrentContext { device: 1, context: 2 }), BridgeCommand::Rest);
    assert_eq!(bridge.advance(true), BridgeCommand::Wrap(native()));
    assert_eq!(bridge.advance(true), BridgeCommand::Restore(current()));
}

#[test]
fn idle_bridge_ignores_reports() {
    let mut bridge = GlContextBridge::new(native());
    assert_eq!(bridge.advance(true), BridgeCommand::Rest);
    assert_eq!(bridge.phase(), BridgePhase::Idle);
}

#[test]
fn failed_detach_restores_and_gives_up() {
    let mut bridge = GlContextBridge::new(native());
    bridge.begin_wrap(current());
    assert_eq!(bridge.advance(false), BridgeCommand::Restore(current()));
    assert_eq!(
        bridge.phase(),
        BridgePhase::Restoring { failure: Some(BridgeError::DetachFailed) }
    );
    assert_eq!(bridge.advance(true), BridgeCommand::Rest);
    assert_eq!(bridge.phase(), BridgePhase::Failed(BridgeError::DetachFailed));
}

#[test]
fn failed_wrap_still_restores_the_render_context() {
    let mut bridge = GlContextBridge::new(native());
    bridge.begin_wrap(current());
    bridge.advance(true);
    assert_eq!(bridge.advance(false), BridgeCommand::Restore(current()));
    assert_eq!(bridge.phase(), BridgePhase::Restoring { failure: Some(BridgeError::WrapFailed) });
    assert_eq!(bridge.advance(true), BridgeCommand::Rest);
    assert_eq!(bridge.phase(), BridgePhase::Failed(BridgeError::WrapFailed));
    assert_eq!(bridge.reply("gst.gl.app_context", true), ContextReply::Nothing);
}

#[test]
fn failed_restore_activate_and_describe() {
    let mut bridge = GlContextBridge::new(native());
    bridge.begin_wrap(current());
    bridge.advance(true);
    bridge.advance(true);
    assert_eq!(bridge.advance(false), BridgeCommand::Rest);
    assert_eq!(bridge.phase(), BridgePhase::Failed(BridgeError::RestoreFailed));

    let mut bridge = GlContextBridge::new(native());
    bridge.begin_wrap(current());
    bridge.advance(true);
    bridge.advance(true);
    bridge.advance(true);
    assert_eq!(bridge.advance(false), BridgeCommand::Rest);
    assert_eq!(bridge.phase(), BridgePhase::Failed(BridgeError::ActivateFailed));

    let mut bridge = GlContextBridge::new(native());
    bridge.begin_wrap(current());
    bridge.advance(true);
    bridge.advance(true);
    bridge.advance(true);
    bridge.advance(true);
    assert_eq!(bridge.advance(false), BridgeCommand::Rest);
    assert_eq!(bridge.phase(), BridgePhase::Failed(BridgeError::InfoFailed));
}

#[test]
fn release_hands_back_a_context_still_owed() {
    let mut bridge = GlContextBridge::new(native());
    bridge.begin_wrap(current());
    bridge.advance(true);
    assert_eq!(bridge.release(), BridgeCommand::Restore(current()));
    assert_eq!(bridge.phase(), BridgePhase::Released);
    assert_eq!(bridge.release(), BridgeCommand::Rest);
    assert_eq!(bridge.phase(), BridgePhase::Released);

    let mut bridge = shared_bridge();
    assert_eq!(bridge.release(), BridgeCommand::Rest);
    assert_eq!(bridge.phase(), BridgePhase::Released);

    let mut bridge = GlContextBridge::new(native());
    assert_eq!(bridge.release(), BridgeCommand::Rest);
    assert_eq!(bridge.begin_wrap(current()), BridgeCommand::Rest);
    assert_eq!(bridge.phase(), BridgePhase::Released);
}

#[test]
fn replies_to_context_requests() {
    let bridge = shared_bridge();
    assert_eq!(bridge.reply("gst.gl.GLDisplay", true), ContextReply::Display);
    assert_eq!(bridge.reply("gst.gl.app_context", true), ContextReply::Application);
    assert_eq!(bridge.reply("gst.gl.context.WGL", true), ContextReply::Nothing);
    assert_eq!(bridge.reply("gst.gl.GLDisplay", false), ContextReply::Nothing);
    assert_eq!(bridge.reply("gst.gl.app_context", false), ContextReply::Nothing);
}

#[test]
fn application_context_is_handed_out_only_once_shared() {
    let mut bridge = GlContextBridge::new(native());
    assert_eq!(bridge.reply("gst.gl.app_context", true), ContextReply::Nothing);
    assert_eq!(bridge.reply("gst.gl.GLDisplay", true), ContextReply::Display);
    bridge.begin_wrap(current());
    for _ in 0..4 {
        assert_eq!(bridge.reply("gst.gl.app_context", true), ContextReply::Nothing);
        bridge.advance(true);
    }
    assert_eq!(bridge.reply("gst.gl.app_context", true), ContextReply::Nothing);
    bridge.advance(true);
    assert_eq!(bridge.reply("gst.gl.app_context", true), ContextReply::Application);
    bridge.release();
    assert_eq!(bridge.reply("gst.gl.app_context", true), ContextReply::Nothing);
    assert_eq!(bridge.reply("gst.gl.GLDisplay", true), ContextReply::Nothing);
}
