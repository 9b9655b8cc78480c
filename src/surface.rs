use vstd::prelude::*;

verus! {

/// A size in physical pixels.
#[derive(Debug, Clone, Copy, PartialEq, Eq, Structural)]
pub struct Size {
    pub width: u32,
    pub height: u32,
}

impl Size {
    pub open spec fn is_degenerate(self) -> bool {
        self.width == 0 || self.height == 0
    }

    pub fn new(width: u32, height: u32) -> (r: Size)
        ensures
            r.width == width,
            r.height == height,
    {
        Size { width, height }
    }

    /// Whether one of the two sides is zero, as while a window is minimised.
    pub fn degenerate(&self) -> (r: bool)
        ensures
            r == self.is_degenerate(),
    {
        self.width == 0 || self.height == 0
    }
}

/// Where a surface stands in one frame cycle.
#[derive(Debug, Clone, Copy, PartialEq, Eq, Structural)]
pub enum FramePhase {
    /// Configured and ready for the next frame.
    Configured,
    /// A frame was acquired: drawing may be recorded, and it must be presented.
    FrameReady,
}

/// What the presentation target answered to a request for the next frame.
#[derive(Debug, Clone, Copy, PartialEq, Eq, Structural)]
pub enum AcquireOutcome {
    Acquired,
    /// The target was invalidated, for instance after the window came back from
    /// being minimised.
    Lost,
    /// The target no longer matches the window.
    Outdated,
    Timeout,
    OutOfMemory,
    /// Any other failure of the driver.
    Other,
}

/// What the caller has to do with the frame after an acquisition.
#[derive(Debug, Clone, Copy, PartialEq, Eq, Structural)]
pub enum FrameAction {
    /// Record the drawing work, submit it and present the frame.
    Draw,
    /// Skip this frame and configure the target again at this size.
    Reconfigure(Size),
    /// Skip this frame only.
    Skip,
    /// The failure cannot be recovered from: shut the application down.
    Shutdown,
}

#[derive(Debug, Clone, Copy, PartialEq, Eq, Structural)]
pub enum SurfaceError {
    /// A width or a height of zero was asked for.
    ConfigurationError,
}

/// The abstract state of a [`SurfaceSession`].
pub struct SessionView {
    pub size: Size,
    pub phase: FramePhase,
}

/// The presentation state of one window: the size its target was last configured
/// at, and the stage of the current frame.
pub struct SurfaceSession {
    size: Size,
    phase: FramePhase,
}

impl View for SurfaceSession {
    type V = SessionView;

    closed spec fn view(&self) -> SessionView {
        SessionView { size: self.size, phase: self.phase }
    }
}

impl SurfaceSession {
    pub open spec fn wf(&self) -> bool {
        !self@.size.is_degenerate()
    }

    /// A session for a target configured at `size`; a degenerate size is refused.
    pub fn new(size: Size) -> (r: Result<SurfaceSession, SurfaceError>)
        ensures
            size.is_degenerate() ==> r == Err::<SurfaceSession, SurfaceError>(
                SurfaceError::ConfigurationError,
            ),
            !size.is_degenerate() ==> r is Ok && r->Ok_0@.size == size && r->Ok_0@.phase
                == FramePhase::Configured && r->Ok_0.wf(),
    {
        if size.degenerate() {
            Err(SurfaceError::ConfigurationError)
        } else {
            Ok(SurfaceSession { size, phase: FramePhase::Configured })
        }
    }

    pub fn configured_size(&self) -> (r: Size)
        ensures
            r == self@.size,
    {
        self.size
    }

    pub fn phase(&self) -> (r: FramePhase)
        ensures
            r == self@.phase,
    {
        self.phase
    }

    /// Takes in a new window size. A size with a zero side changes nothing and
    /// returns `false`; any other becomes the configured size, and `true` tells the
    /// caller to configure the target at it.
    pub fn resize(&mut self, new_size: Size) -> (reconfigure: bool)
        ensures
            new_size.is_degenerate() ==> !reconfigure && final(self)@ == old(self)@,
            !new_size.is_degenerate() ==> reconfigure && final(self)@ == (SessionView {
                size: new_size,
                phase: FramePhase::Configured,
            }),
            old(self).wf() ==> final(self).wf(),
    {
        if new_size.degenerate() {
            false
        } else {
            self.size = new_size;
            self.phase = FramePhase::Configured;
            true
        }
    }

    /// What [`SurfaceSession::acquire_frame`] does: from `self`, with `outcome`, to
    /// `next`, answering `action`.
    pub open spec fn acquire_frame_spec(
        self,
        outcome: AcquireOutcome,
        next: SurfaceSession,
        action: FrameAction,
    ) -> bool {
        next@.size == self@.size && match outcome {
            AcquireOutcome::Acquired => action == FrameAction::Draw && next@.phase
                == FramePhase::FrameReady,
            AcquireOutcome::Lost | AcquireOutcome::Outdated => action == FrameAction::Reconfigure(
                self@.size,
            ) && next@.phase == FramePhase::Configured,
            AcquireOutcome::Timeout => action == FrameAction::Skip && next@.phase
                == FramePhase::Configured,
            AcquireOutcome::OutOfMemory | AcquireOutcome::Other => action == FrameAction::Shutdown
                && next@.phase == FramePhase::Configured,
        }
    }

    /// Takes in the outcome of a frame acquisition and says what to do with the frame.
    /// A lost or outdated target asks for exactly one reconfiguration, at the size
    /// already configured; a timeout skips the frame; out of memory and any other
    /// driver failure end the application.
    pub fn acquire_frame(&mut self, outcome: AcquireOutcome) -> (action: FrameAction)
        ensures
            outcome == AcquireOutcome::Acquired ==> action == FrameAction::Draw && final(self)@
                == (SessionView { size: old(self)@.size, phase: FramePhase::FrameReady }),
            (outcome == AcquireOutcome::Lost || outcome == AcquireOutcome::Outdated) ==> action
                == FrameAction::Reconfigure(old(self)@.size) && final(self)@ == (SessionView {
                size: old(self)@.size,
                phase: FramePhase::Configured,
            }),
            outcome == AcquireOutcome::Timeout ==> action == FrameAction::Skip && final(self)@
                == (SessionView { size: old(self)@.size, phase: FramePhase::Configured }),
            (outcome == AcquireOutcome::OutOfMemory || outcome == AcquireOutcome::Other)
                ==> action == FrameAction::Shutdown && final(self)@ == (SessionView {
                size: old(self)@.size,
                phase: FramePhase::Configured,
            }),
            final(self)@.size == old(self)@.size,
            old(self).acquire_frame_spec(outcome, *final(self), action),
    {
        match outcome {
            AcquireOutcome::Acquired => {
                self.phase = FramePhase::FrameReady;
                FrameAction::Draw
            },
            AcquireOutcome::Lost | AcquireOutcome::Outdated => {
                self.phase = FramePhase::Configured;
                FrameAction::Reconfigure(self.size)
            },
            AcquireOutcome::Timeout => {
                self.phase = FramePhase::Configured;
                FrameAction::Skip
            },
            AcquireOutcome::OutOfMemory | AcquireOutcome::Other => {
                self.phase = FramePhase::Configured;
                FrameAction::Shutdown
            },
        }
    }

    /// Closes the frame cycle once the acquired frame was presented.
    pub fn present(&mut self)
        requires
            old(self)@.phase == FramePhase::FrameReady,
        ensures
            final(self)@ == (SessionView { size: old(self)@.size, phase: FramePhase::Configured }),
    {
        self.phase = FramePhase::Configured;
    }
}

} // verus!
