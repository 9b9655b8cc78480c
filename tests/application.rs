use std::cell::RefCell;
use std::rc::Rc;

use engine::application::{AppError, Application, IdleAction, RunPhase, WindowAction};
use engine::layer::{Layer, WindowEvent};
use engine::registry::{RegistryError, WindowRegistry};
use engine::surface::{AcquireOutcome, FrameAction, FramePhase, Size, SurfaceSession};

type Log = Rc<RefCell<Vec<String>>>;

struct Recorder {
    name: &'static str,
    log: Log,
}

impl Layer for Recorder {
    fn init(&mut self) {
        self.log.borrow_mut().push(format!("init {}", self.name));
    }

    fn update(&mut self) {
        self.log.borrow_mut().push(format!("update {}", self.name));
    }

    fn event(&mut self, event: &WindowEvent) {
        self.log.borrow_mut().push(format!("event {} {:?}", self.name, event));
    }

    fn cleanup(&mut self) {
        self.log.borrow_mut().push(format!("cleanup {}", self.name));
    }
}

fn rec(name: &'static str, log: &Log) -> Recorder {
    Recorder { name, log: log.clone() }
}

fn session(w: u32, h: u32) -> SurfaceSession {
    SurfaceSession::new(Size::new(w, h)).ok().unwrap()
}

#[test]
fn registry_refuses_duplicates_and_removes_idempotently() {
    let mut r = WindowRegistry::new();
    assert!(r.insert(1, session(100, 100)).is_ok());
    assert_eq!(r.insert(1, session(200, 200)).err(), Some(RegistryError::DuplicateWindow));
    assert_eq!(r.len(), 1);
    assert!(r.remove(1).is_some());
    assert!(r.remove(1).is_none());
    assert!(r.is_empty());
}

#[test]
fn closing_one_of_two_windows_keeps_the_other() {
    let mut app: Application<Recorder> = Application::new();
    assert!(app.resumed());
    assert_eq!(app.add_window(1, Size::new(1280, 720)), Ok(()));
    assert_eq!(app.add_window(2, Size::new(800, 600)), Ok(()));
    assert_eq!(app.window_count(), 2);
    assert_eq!(app.window_event(1, &WindowEvent::CloseRequested), WindowAction::Close);
    assert_eq!(app.window_count(), 1);
    assert_eq!(app.window_ids(), vec![2]);
    let other = app.windows().get(2).unwrap();
    assert_eq!(other.configured_size(), Size::new(800, 600));
    assert_eq!(other.phase(), FramePhase::Configured);
}

#[test]
fn closing_the_last_window_shuts_down_once() {
    let log: Log = Rc::new(RefCell::new(Vec::new()));
    let mut app: Application<Recorder> = Application::new();
    app.push_layer(rec("A", &log));
    app.push_overlay(rec("B", &log));
    assert!(app.resumed());
    assert_eq!(app.add_window(7, Size::new(1280, 720)), Ok(()));
    assert_eq!(app.about_to_wait(), IdleAction::Render);
    assert_eq!(app.window_event(7, &WindowEvent::CloseRequested), WindowAction::Close);
    assert_eq!(app.phase(), RunPhase::Running);
    assert_eq!(app.about_to_wait(), IdleAction::Exit);
    assert_eq!(app.phase(), RunPhase::ShuttingDown);
    assert!(app.shutdown());
    assert!(!app.shutdown());
    assert_eq!(app.phase(), RunPhase::Stopped);
    let cleanups: Vec<String> =
        log.borrow().iter().filter(|l| l.starts_with("cleanup")).cloned().collect();
    assert_eq!(cleanups, vec!["cleanup B", "cleanup A"]);
}

#[test]
fn layers_see_the_close_before_the_window_goes() {
    let log: Log = Rc::new(RefCell::new(Vec::new()));
    let mut app: Application<Recorder> = Application::new();
    app.push_layer(rec("A", &log));
    app.resumed();
    app.add_window(3, Size::new(10, 10)).unwrap();
    app.window_event(3, &WindowEvent::CloseRequested);
    assert_eq!(*log.borrow(), vec!["init A", "event A CloseRequested"]);
    assert_eq!(app.window_count(), 0);
}

#[test]
fn resized_windows_are_reconfigured_unless_degenerate() {
    let mut app: Application<Recorder> = Application::new();
    app.resumed();
    app.add_window(1, Size::new(1280, 720)).unwrap();
    assert_eq!(
        app.window_event(1, &WindowEvent::Resized(Size::new(0, 720))),
        WindowAction::Nothing
    );
    assert_eq!(
        app.window_event(1, &WindowEvent::Resized(Size::new(640, 360))),
        WindowAction::Reconfigure(Size::new(640, 360))
    );
    assert_eq!(app.windows().get(1).unwrap().configured_size(), Size::new(640, 360));
    assert_eq!(
        app.window_event(9, &WindowEvent::Resized(Size::new(640, 360))),
        WindowAction::Nothing
    );
}

#[test]
fn lost_frame_reconfigures_and_updates_keep_running() {
    let log: Log = Rc::new(RefCell::new(Vec::new()));
    let mut app: Application<Recorder> = Application::new();
    app.push_layer(rec("A", &log));
    app.resumed();
    app.add_window(1, Size::new(300, 200)).unwrap();
    assert!(app.begin_frame(1));
    assert_eq!(
        app.frame_acquired(1, AcquireOutcome::Lost),
        FrameAction::Reconfigure(Size::new(300, 200))
    );
    assert_eq!(app.phase(), RunPhase::Running);
    app.update_layers();
    assert_eq!(app.frame_acquired(1, AcquireOutcome::Acquired), FrameAction::Draw);
    assert!(app.frame_presented(1));
    assert!(!app.frame_presented(1));
    assert_eq!(*log.borrow(), vec!["init A", "update A", "update A"]);
}

#[test]
fn out_of_memory_starts_the_shutdown() {
    let mut app: Application<Recorder> = Application::new();
    app.resumed();
    app.add_window(1, Size::new(300, 200)).unwrap();
    assert_eq!(app.frame_acquired(1, AcquireOutcome::OutOfMemory), FrameAction::Shutdown);
    assert_eq!(app.phase(), RunPhase::ShuttingDown);
    assert_eq!(app.about_to_wait(), IdleAction::Exit);
    assert_eq!(app.frame_acquired(2, AcquireOutcome::Acquired), FrameAction::Skip);
}

#[test]
fn add_window_errors() {
    let mut app: Application<Recorder> = Application::new();
    assert_eq!(app.add_window(1, Size::new(0, 10)), Err(AppError::ConfigurationError));
    assert_eq!(app.add_window(1, Size::new(10, 10)), Ok(()));
    assert_eq!(app.add_window(1, Size::new(20, 20)), Err(AppError::DuplicateWindow));
    assert!(!app.resumed());
}

#[test]
fn construction_touches_nothing() {
    let app: Application<Recorder> = Application::new();
    assert_eq!(app.phase(), RunPhase::Idle);
    assert_eq!(app.window_count(), 0);
    assert_eq!(app.layers().len(), 0);
}

#[test]
fn begin_frame_updates_only_for_registered_windows() {
    let log: Log = Rc::new(RefCell::new(Vec::new()));
    let mut app: Application<Recorder> = Application::new();
    app.push_layer(rec("A", &log));
    app.push_overlay(rec("C", &log));
    app.push_layer(rec("B", &log));
    app.resumed();
    app.add_window(4, Size::new(50, 50)).unwrap();
    assert!(!app.begin_frame(5));
    assert!(app.begin_frame(4));
    assert_eq!(
        *log.borrow(),
        vec!["init A", "init C", "init B", "update A", "update B", "update C"]
    );
}

#[test]
fn every_layer_sees_a_resize_bottom_first() {
    let log: Log = Rc::new(RefCell::new(Vec::new()));
    let mut app: Application<Recorder> = Application::new();
    app.push_overlay(rec("O", &log));
    app.push_layer(rec("L", &log));
    app.resumed();
    app.add_window(1, Size::new(50, 50)).unwrap();
    log.borrow_mut().clear();
    app.window_event(1, &WindowEvent::Resized(Size::new(60, 40)));
    assert_eq!(
        *log.borrow(),
        vec![
            "event L Resized(Size { width: 60, height: 40 })",
            "event O Resized(Size { width: 60, height: 40 })",
        ]
    );
}
