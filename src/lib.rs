//! The control structure of a windowed render loop: an ordered stack of layers that
//! receive every update and event, the frame cycle of each window's presentation
//! target, the registry of live windows, and the driver that decides, for every
//! notification of the host loop, what is dispatched in which order and when the
//! run ends. The host performs the native and device work that these decide.
use vstd::prelude::*;

pub mod application;
pub mod layer;
pub mod layer_stack;
pub mod registry;
pub mod stack;
pub mod surface;
pub mod window;

verus! {

} // verus!
