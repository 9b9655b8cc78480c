use std::cell::RefCell;
use std::rc::Rc;

use engine::layer::{Layer, RenderLayer, WindowEvent};
use engine::layer_stack::LayerStack;

type Log = Rc<RefCell<Vec<String>>>;

struct Recorder {
    name: &'static str,
    log: Log,
}

impl Layer for Recorder {
    fn init(&mut self) {
        self.log.borrow_mut().push(format!("init {}", self.name));
    }

    fn update(&mut self) {
        self.log.borrow_mut().push(format!("update {}", self.name));
    }

    fn event(&mut self, event: &WindowEvent) {
        self.log.borrow_mut().push(format!("event {} {:?}", self.name, event));
    }

    fn cleanup(&mut self) {
        self.log.borrow_mut().push(format!("cleanup {}", self.name));
    }
}

fn rec(name: &'static str, log: &Log) -> Recorder {
    Recorder { name, log: log.clone() }
}

fn names(s: &LayerStack<Recorder>) -> Vec<&'static str> {
    s.stack().data().iter().map(|r| r.name).collect()
}

#[test]
fn update_order_is_layers_then_overlays() {
    let log: Log = Rc::new(RefCell::new(Vec::new()));
    let mut s = LayerStack::new();
    s.push_layer(rec("A", &log));
    s.push_layer(rec("B", &log));
    s.push_overlay(rec("C", &log));
    s.update_all();
    assert_eq!(*log.borrow(), vec!["update A", "update B", "update C"]);
}

#[test]
fn layers_stay_below_overlays_in_push_order() {
    let log: Log = Rc::new(RefCell::new(Vec::new()));
    let mut s = LayerStack::new();
    s.push_overlay(rec("O1", &log));
    s.push_layer(rec("L1", &log));
    s.push_overlay(rec("O2", &log));
    s.push_layer(rec("L2", &log));
    s.push_layer(rec("L3", &log));
    assert_eq!(names(&s), vec!["L1", "L2", "L3", "O1", "O2"]);
    assert_eq!(s.overlay_start(), 3);
}

#[test]
fn pop_layer_removes_the_last_layer() {
    let log: Log = Rc::new(RefCell::new(Vec::new()));
    let mut s = LayerStack::new();
    s.push_layer(rec("A", &log));
    s.push_layer(rec("B", &log));
    assert_eq!(s.overlay_start(), 2);
    let popped = s.pop_layer();
    assert_eq!(popped.map(|r| r.name), Some("B"));
    assert_eq!(s.overlay_start(), 1);
    assert_eq!(names(&s), vec!["A"]);
}

#[test]
fn pop_then_push_layer_restores_the_boundary() {
    let log: Log = Rc::new(RefCell::new(Vec::new()));
    let mut s = LayerStack::new();
    s.push_layer(rec("A", &log));
    s.push_layer(rec("B", &log));
    s.push_overlay(rec("C", &log));
    let before = s.overlay_start();
    s.pop_layer();
    s.push_layer(rec("X", &log));
    assert_eq!(s.overlay_start(), before);
    assert_eq!(names(&s), vec!["A", "X", "C"]);
}

#[test]
fn pop_overlay_never_takes_a_layer() {
    let log: Log = Rc::new(RefCell::new(Vec::new()));
    let mut s = LayerStack::new();
    s.push_layer(rec("A", &log));
    assert!(s.pop_overlay().is_none());
    assert_eq!(names(&s), vec!["A"]);
    assert_eq!(s.overlay_start(), 1);
}

#[test]
fn pop_on_empty_regions_says_so() {
    let mut s: LayerStack<RenderLayer> = LayerStack::new();
    assert!(s.pop_layer().is_none());
    assert!(s.pop_overlay().is_none());
    s.push_overlay(RenderLayer::new());
    assert!(s.pop_layer().is_none());
    assert!(s.pop_overlay().is_some());
    assert_eq!(s.len(), 0);
}

#[test]
fn events_go_bottom_up_and_cleanup_top_down() {
    let log: Log = Rc::new(RefCell::new(Vec::new()));
    let mut s = LayerStack::new();
    s.push_overlay(rec("C", &log));
    s.push_layer(rec("A", &log));
    s.init_all();
    s.event_all(&WindowEvent::CloseRequested);
    s.cleanup_all();
    assert_eq!(
        *log.borrow(),
        vec![
            "init A",
            "init C",
            "event A CloseRequested",
            "event C CloseRequested",
            "cleanup C",
            "cleanup A",
        ]
    );
}
