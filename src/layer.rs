use vstd::prelude::*;

use crate::surface::Size;

verus! {

/// A window-level notification, as the layers receive it.
#[derive(Debug, Clone, Copy, PartialEq, Eq, Structural)]
pub enum WindowEvent {
    CloseRequested,
    Resized(Size),
    /// Input and every other notification that the core routes without reading.
    Other,
}

/// A pluggable unit of behaviour. The stack calls these in a fixed order and never
/// looks inside an implementation.
pub trait Layer {
    fn init(&mut self);

    fn update(&mut self);

    fn event(&mut self, event: &WindowEvent);

    fn cleanup(&mut self);
}

/// The built-in layer that the application starts with; it does no work of its own.
pub struct RenderLayer {}

impl RenderLayer {
    pub fn new() -> RenderLayer {
        RenderLayer {  }
    }
}

impl Layer for RenderLayer {
    fn init(&mut self) {
    }

    fn update(&mut self) {
    }

    fn event(&mut self, event: &WindowEvent) {
    }

    fn cleanup(&mut self) {
    }
}

} // verus!
