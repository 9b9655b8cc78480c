use vstd::prelude::*;

use crate::surface::{Size, SurfaceError};

verus! {

/// What a new window is asked to be.
pub struct WindowSettings {
    pub title: String,
    pub size: Size,
    pub resizable: bool,
    pub decorations: bool,
}

impl WindowSettings {
    pub fn new(title: String, size: Size, resizable: bool, decorations: bool) -> (r: WindowSettings)
        ensures
            r.title@ == title@,
            r.size == size,
            r.resizable == resizable,
            r.decorations == decorations,
    {
        WindowSettings { title, size, resizable, decorations }
    }

    /// Refuses settings that no window can be created from: a side of zero.
    pub fn check(&self) -> (r: Result<(), SurfaceError>)
        ensures
            self.size.is_degenerate() ==> r == Err::<(), SurfaceError>(
                SurfaceError::ConfigurationError,
            ),
            !self.size.is_degenerate() ==> r is Ok,
    {
        if self.size.degenerate() {
            Err(SurfaceError::ConfigurationError)
        } else {
            Ok(())
        }
    }
}

} // verus!
