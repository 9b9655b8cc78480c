use engine::surface::{AcquireOutcome, FrameAction, FramePhase, Size, SurfaceError, SurfaceSession};
use engine::window::WindowSettings;

fn session(w: u32, h: u32) -> SurfaceSession {
    SurfaceSession::new(Size::new(w, h)).ok().unwrap()
}

#[test]
fn degenerate_sessions_are_refused() {
    assert!(matches!(SurfaceSession::new(Size::new(0, 720)), Err(SurfaceError::ConfigurationError)));
    assert!(matches!(SurfaceSession::new(Size::new(1280, 0)), Err(SurfaceError::ConfigurationError)));
    assert_eq!(session(1280, 720).configured_size(), Size::new(1280, 720));
}

#[test]
fn zero_sided_resizes_change_nothing() {
    let mut s = session(1280, 720);
    assert!(!s.resize(Size::new(0, 500)));
    assert!(!s.resize(Size::new(500, 0)));
    assert!(!s.resize(Size::new(0, 0)));
    assert_eq!(s.configured_size(), Size::new(1280, 720));
}

#[test]
fn resize_reconfigures_at_the_new_size() {
    let mut s = session(1280, 720);
    assert!(s.resize(Size::new(800, 600)));
    assert_eq!(s.configured_size(), Size::new(800, 600));
    assert_eq!(s.phase(), FramePhase::Configured);
}

#[test]
fn lost_and_outdated_reconfigure_at_the_current_size() {
    let mut s = session(640, 480);
    assert_eq!(s.acquire_frame(AcquireOutcome::Lost), FrameAction::Reconfigure(Size::new(640, 480)));
    assert_eq!(
        s.acquire_frame(AcquireOutcome::Outdated),
        FrameAction::Reconfigure(Size::new(640, 480))
    );
    assert_eq!(s.configured_size(), Size::new(640, 480));
    assert_eq!(s.phase(), FramePhase::Configured);
}

#[test]
fn timeout_skips_and_fatal_errors_shut_down() {
    let mut s = session(640, 480);
    assert_eq!(s.acquire_frame(AcquireOutcome::Timeout), FrameAction::Skip);
    assert_eq!(s.acquire_frame(AcquireOutcome::OutOfMemory), FrameAction::Shutdown);
    assert_eq!(s.acquire_frame(AcquireOutcome::Other), FrameAction::Shutdown);
    assert_eq!(s.phase(), FramePhase::Configured);
}

#[test]
fn acquired_frame_is_drawn_then_presented() {
    let mut s = session(640, 480);
    assert_eq!(s.acquire_frame(AcquireOutcome::Acquired), FrameAction::Draw);
    assert_eq!(s.phase(), FramePhase::FrameReady);
    s.present();
    assert_eq!(s.phase(), FramePhase::Configured);
}

#[test]
fn window_settings_reject_zero_sides() {
    let ok = WindowSettings::new("Engine Window".to_string(), Size::new(1280, 720), true, true);
    assert_eq!(ok.check(), Ok(()));
    assert_eq!(ok.title, "Engine Window");
    let bad = WindowSettings::new("w".to_string(), Size::new(0, 720), false, false);
    assert_eq!(bad.check(), Err(SurfaceError::ConfigurationError));
}
