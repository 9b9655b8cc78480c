use vstd::prelude::*;

use crate::layer::{Layer, WindowEvent};
use crate::layer_stack::{bottom_up, top_down, Dispatch, LayerStack, LayerStackView};
use crate::registry::{has_id, ids_unique, RegistryError, WindowRegistry};
use crate::surface::{
    AcquireOutcome, FrameAction, FramePhase, SessionView, Size, SurfaceError, SurfaceSession,
};

verus! {

/// The stage of a run.
#[derive(Debug, Clone, Copy, PartialEq, Eq, Structural)]
pub enum RunPhase {
    /// Constructed; no window or device has been touched yet.
    Idle,
    Running,
    /// The host loop was asked to stop; the layers are still to be cleaned up.
    ShuttingDown,
    Stopped,
}

/// What the host has to do after a window-level notification.
#[derive(Debug, Clone, Copy, PartialEq, Eq, Structural)]
pub enum WindowAction {
    Nothing,
    /// The window's session is gone: release its native window and target.
    Close,
    /// Configure the window's target again at this size.
    Reconfigure(Size),
}

/// What the host has to do when it is about to wait for events.
#[derive(Debug, Clone, Copy, PartialEq, Eq, Structural)]
pub enum IdleAction {
    /// Render a frame for every registered window.
    Render,
    /// Leave the event loop.
    Exit,
}

#[derive(Debug, Clone, Copy, PartialEq, Eq, Structural)]
pub enum AppError {
    /// A window of a degenerate size was offered.
    ConfigurationError,
    /// The identity already has a session.
    DuplicateWindow,
}

/// The abstract state of an [`Application`].
pub struct AppView<L> {
    pub windows: Seq<(u64, SurfaceSession)>,
    pub layers: LayerStackView<L>,
    pub phase: RunPhase,
}

/// The driver: it owns the live windows and the layer stack, and decides, for every
/// notification of the host loop, in what order the layers and the windows' sessions
/// are driven and when the run ends. The host performs what it decides.
pub struct Application<L> {
    windows: WindowRegistry,
    layer_stack: LayerStack<L>,
    phase: RunPhase,
}

impl<L> View for Application<L> {
    type V = AppView<L>;

    closed spec fn view(&self) -> AppView<L> {
        AppView { windows: self.windows@, layers: self.layer_stack@, phase: self.phase }
    }
}

impl<L> Application<L> {
    pub open spec fn wf(&self) -> bool {
        &&& ids_unique(self@.windows)
        &&& forall|i: int| 0 <= i < self@.windows.len() ==> (#[trigger] self@.windows[i]).1.wf()
        &&& self@.layers.wf()
    }

    /// Every call made on a layer so far, oldest first.
    pub closed spec fn dispatched(&self) -> Seq<Dispatch> {
        self.layer_stack.dispatched()
    }

    /// A new application: no window, no layer, nothing native or on the device touched.
    pub fn new() -> (r: Application<L>)
        ensures
            r@.windows == Seq::<(u64, SurfaceSession)>::empty(),
            r@.layers.elements == Seq::<L>::empty(),
            r@.layers.overlay_start == 0,
            r@.phase == RunPhase::Idle,
            r.wf(),
            r.dispatched() == Seq::<Dispatch>::empty(),
    {
        Application { windows: WindowRegistry::new(), layer_stack: LayerStack::new(), phase: RunPhase::Idle }
    }

    pub fn phase(&self) -> (r: RunPhase)
        ensures
            r == self@.phase,
    {
        self.phase
    }

    pub fn layers(&self) -> (r: &LayerStack<L>)
        ensures
            r@ == self@.layers,
    {
        &self.layer_stack
    }

    pub fn windows(&self) -> (r: &WindowRegistry)
        ensures
            r@ == self@.windows,
    {
        &self.windows
    }

    pub fn window_count(&self) -> (r: usize)
        ensures
            r == self@.windows.len(),
    {
        self.windows.len()
    }

    /// The registered windows, in order of creation.
    pub fn window_ids(&self) -> (r: Vec<u64>)
        ensures
            r@.len() == self@.windows.len(),
            forall|k: int| 0 <= k < r@.len() ==> #[trigger] r@[k] == self@.windows[k].0,
    {
        self.windows.ids()
    }

    /// The host activated the application. A run that has not begun starts; the
    /// result says whether the default window has to be created now, which is so
    /// when the run is live and no window exists.
    pub fn resumed(&mut self) -> (create_window: bool)
        ensures
            (old(self)@.phase == RunPhase::Idle || old(self)@.phase == RunPhase::Running) ==> (
            final(self)@ == AppView {
                windows: old(self)@.windows,
                layers: old(self)@.layers,
                phase: RunPhase::Running,
            } && create_window == (old(self)@.windows.len() == 0)),
            (old(self)@.phase == RunPhase::ShuttingDown || old(self)@.phase == RunPhase::Stopped)
                ==> final(self)@ == old(self)@ && !create_window,
            final(self).wf() == old(self).wf(),
            final(self).dispatched() == old(self).dispatched(),
    {
        match self.phase {
            RunPhase::Idle | RunPhase::Running => {
                self.phase = RunPhase::Running;
                self.windows.is_empty()
            },
            _ => false,
        }
    }

    /// Registers a window the host created, with a session configured at `size`.
    pub fn add_window(&mut self, id: u64, size: Size) -> (r: Result<(), AppError>)
        requires
            old(self).wf(),
        ensures
            final(self).wf(),
            final(self)@.layers == old(self)@.layers,
            final(self)@.phase == old(self)@.phase,
            final(self).dispatched() == old(self).dispatched(),
            size.is_degenerate() ==> r == Err::<(), AppError>(AppError::ConfigurationError)
                && final(self)@.windows == old(self)@.windows,
            !size.is_degenerate() && has_id(old(self)@.windows, id) ==> r == Err::<(), AppError>(
                AppError::DuplicateWindow,
            ) && final(self)@.windows == old(self)@.windows,
            !size.is_degenerate() && !has_id(old(self)@.windows, id) ==> r is Ok
                && final(self)@.windows.len() == old(self)@.windows.len() + 1
                && final(self)@.windows.drop_last() == old(self)@.windows
                && final(self)@.windows.last().0 == id
                && final(self)@.windows.last().1@ == (SessionView {
                size,
                phase: FramePhase::Configured,
            }),
    {
        match SurfaceSession::new(size) {
            Err(SurfaceError::ConfigurationError) => Err(AppError::ConfigurationError),
            Ok(session) => {
                let ghost pre = self.windows@;
                match self.windows.insert(id, session) {
                    Ok(()) => {
                        assert(self.windows@.drop_last() =~= pre);
                        Ok(())
                    },
                    Err(RegistryError::DuplicateWindow) => Err(AppError::DuplicateWindow),
                }
            },
        }
    }

    /// The host is about to wait for events. Without a window left a live run
    /// begins to shut down, and the host is told to leave its loop; that is the
    /// only way a run ends.
    pub fn about_to_wait(&mut self) -> (action: IdleAction)
        ensures
            final(self)@.windows == old(self)@.windows,
            final(self)@.layers == old(self)@.layers,
            (old(self)@.phase == RunPhase::ShuttingDown || old(self)@.phase == RunPhase::Stopped)
                ==> action == IdleAction::Exit && final(self)@.phase == old(self)@.phase,
            (old(self)@.phase == RunPhase::Idle || old(self)@.phase == RunPhase::Running) ==> (if old(
                self,
            )@.windows.len() == 0 {
                action == IdleAction::Exit && final(self)@.phase == RunPhase::ShuttingDown
            } else {
                action == IdleAction::Render && final(self)@.phase == old(self)@.phase
            }),
            final(self).wf() == old(self).wf(),
            final(self).dispatched() == old(self).dispatched(),
    {
        match self.phase {
            RunPhase::ShuttingDown | RunPhase::Stopped => IdleAction::Exit,
            _ => {
                if self.windows.is_empty() {
                    self.phase = RunPhase::ShuttingDown;
                    IdleAction::Exit
                } else {
                    IdleAction::Render
                }
            },
        }
    }

    /// Takes in the outcome of acquiring the next frame of window `id` and says what
    /// to do with that frame. The layers are not touched: their update for this frame
    /// has already run. An unrecoverable failure starts the shutdown of a live run.
    pub fn frame_acquired(&mut self, id: u64, outcome: AcquireOutcome) -> (action: FrameAction)
        requires
            old(self).wf(),
        ensures
            final(self).wf(),
            final(self)@.layers == old(self)@.layers,
            forall|s: Size| action == FrameAction::Reconfigure(s) ==> !s.is_degenerate(),
            final(self).dispatched() == old(self).dispatched(),
            !has_id(old(self)@.windows, id) ==> action == FrameAction::Skip && final(self)@
                == old(self)@,
            has_id(old(self)@.windows, id) ==> exists|i: int|
                0 <= i < old(self)@.windows.len() && old(self)@.windows[i].0 == id && (#[trigger] old(
                    self,
                )@.windows[i].1).acquire_frame_spec(outcome, final(self)@.windows[i].1, action)
                    && final(self)@.windows == old(self)@.windows.update(
                    i,
                    (id, final(self)@.windows[i].1),
                ),
            has_id(old(self)@.windows, id) && action == FrameAction::Shutdown && (old(self)@.phase
                == RunPhase::Idle || old(self)@.phase == RunPhase::Running) ==> final(self)@.phase
                == RunPhase::ShuttingDown,
            !(has_id(old(self)@.windows, id) && action == FrameAction::Shutdown && (old(self)@.phase
                == RunPhase::Idle || old(self)@.phase == RunPhase::Running)) ==> final(self)@.phase
                == old(self)@.phase,
    {
        let action = match self.windows.get_mut(id) {
            Some(session) => session.acquire_frame(outcome),
            None => FrameAction::Skip,
        };
        if action == FrameAction::Shutdown {
            match self.phase {
                RunPhase::Idle | RunPhase::Running => {
                    self.phase = RunPhase::ShuttingDown;
                },
                _ => {},
            }
        }
        action
    }

    /// Closes the frame cycle of window `id` once its frame was presented; `false`,
    /// with nothing changed, when that window has no acquired frame.
    pub fn frame_presented(&mut self, id: u64) -> (done: bool)
        requires
            old(self).wf(),
        ensures
            final(self).wf(),
            final(self)@.layers == old(self)@.layers,
            final(self)@.phase == old(self)@.phase,
            final(self).dispatched() == old(self).dispatched(),
            !done ==> final(self)@ == old(self)@,
            done <==> exists|i: int|
                0 <= i < old(self)@.windows.len() && old(self)@.windows[i].0 == id && (#[trigger] old(
                    self,
                )@.windows[i].1)@.phase == FramePhase::FrameReady,
            done ==> exists|i: int|
                0 <= i < old(self)@.windows.len() && old(self)@.windows[i].0 == id
                    && final(self)@.windows == old(self)@.windows.update(
                    i,
                    (id, final(self)@.windows[i].1),
                ) && (#[trigger] final(self)@.windows[i].1)@ == (SessionView {
                    size: old(self)@.windows[i].1@.size,
                    phase: FramePhase::Configured,
                }),
    {
        let ready = match self.windows.get(id) {
            Some(session) => session.phase() == FramePhase::FrameReady,
            None => false,
        };
        let ghost pre = self.windows@;
        if ready {
            match self.windows.get_mut(id) {
                Some(session) => {
                    session.present();
                },
                None => {},
            }
            proof {
                let j = choose|j: int|
                    0 <= j < pre.len() && pre[j].0 == id && self.windows@ == pre.update(
                        j,
                        (id, self.windows@[j].1),
                    );
                assert(self.windows@[j].1@.size == pre[j].1@.size);
                assert(self.windows@[j].1@.phase == FramePhase::Configured);
                assert(self.windows@[j].1@ == (SessionView {
                    size: pre[j].1@.size,
                    phase: FramePhase::Configured,
                }));
                assert(self@.windows == pre.update(j, (id, self@.windows[j].1)));
            }
        }
        ready
    }
}

impl<L: Layer> Application<L> {
    /// Places `layer` above every earlier layer and below every overlay, then calls
    /// its `init`, so that it is usable at once.
    pub fn push_layer(&mut self, layer: L)
        requires
            old(self).wf(),
            old(self)@.layers.elements.len() < usize::MAX,
        ensures
            final(self).wf(),
            final(self)@.layers == old(self)@.layers.with_layer(
                final(self)@.layers.elements[old(self)@.layers.overlay_start as int],
            ),
            final(self).dispatched() == old(self).dispatched().push(
                Dispatch::Init(old(self)@.layers.overlay_start),
            ),
            final(self)@.windows == old(self)@.windows,
            final(self)@.phase == old(self)@.phase,
    {
        let ghost pre = self.layer_stack@;
        let index = self.layer_stack.overlay_start();
        self.layer_stack.push_layer(layer);
        self.layer_stack.init_at(index);
        assert(self.layer_stack@.elements =~= pre.elements.insert(
            index as int,
            self.layer_stack@.elements[index as int],
        ));
    }

    /// Places `overlay` on top of everything, then calls its `init`.
    pub fn push_overlay(&mut self, overlay: L)
        requires
            old(self).wf(),
        ensures
            final(self).wf(),
            final(self)@.layers == old(self)@.layers.with_overlay(
                final(self)@.layers.elements[old(self)@.layers.elements.len() as int],
            ),
            final(self).dispatched() == old(self).dispatched().push(
                Dispatch::Init(old(self)@.layers.elements.len()),
            ),
            final(self)@.windows == old(self)@.windows,
            final(self)@.phase == old(self)@.phase,
    {
        let ghost pre = self.layer_stack@;
        let index = self.layer_stack.len();
        self.layer_stack.push_overlay(overlay);
        self.layer_stack.init_at(index);
        assert(self.layer_stack@.elements =~= pre.elements.push(
            self.layer_stack@.elements[index as int],
        ));
    }

    /// Runs `update` on every layer, bottom layer first and top overlay last.
    pub fn update_layers(&mut self)
        requires
            old(self).wf(),
        ensures
            final(self).wf(),
            final(self)@.layers.elements.len() == old(self)@.layers.elements.len(),
            final(self)@.layers.overlay_start == old(self)@.layers.overlay_start,
            final(self)@.windows == old(self)@.windows,
            final(self)@.phase == old(self)@.phase,
            final(self).dispatched() == old(self).dispatched() + bottom_up(
                old(self)@.layers.elements.len(),
                |k: nat| Dispatch::Update(k),
            ),
    {
        self.layer_stack.update_all();
    }

    /// Starts the frame of window `id`: every layer is updated, bottom layer first,
    /// and `true` tells the caller to acquire the window's next frame now. For a window
    /// that is not registered nothing happens and the result is `false`.
    pub fn begin_frame(&mut self, id: u64) -> (acquire: bool)
        requires
            old(self).wf(),
        ensures
            final(self).wf(),
            acquire == has_id(old(self)@.windows, id),
            final(self)@.windows == old(self)@.windows,
            final(self)@.phase == old(self)@.phase,
            final(self)@.layers.elements.len() == old(self)@.layers.elements.len(),
            final(self)@.layers.overlay_start == old(self)@.layers.overlay_start,
            !acquire ==> final(self)@ == old(self)@ && final(self).dispatched() == old(
                self,
            ).dispatched(),
            acquire ==> final(self).dispatched() == old(self).dispatched() + bottom_up(
                old(self)@.layers.elements.len(),
                |k: nat| Dispatch::Update(k),
            ),
    {
        if self.windows.contains(id) {
            self.layer_stack.update_all();
            true
        } else {
            false
        }
    }

    /// A window-level notification for window `id`. Every layer sees it first, bottom
    /// layer first, so that a close request is observed before the window goes; then a
    /// close request drops the window's session and a resize is applied to it.
    pub fn window_event(&mut self, id: u64, event: &WindowEvent) -> (action: WindowAction)
        requires
            old(self).wf(),
        ensures
            final(self).wf(),
            final(self)@.layers.elements.len() == old(self)@.layers.elements.len(),
            final(self)@.layers.overlay_start == old(self)@.layers.overlay_start,
            final(self)@.phase == old(self)@.phase,
            forall|s: Size| action == WindowAction::Reconfigure(s) ==> !s.is_degenerate(),
            final(self).dispatched() == old(self).dispatched() + bottom_up(
                old(self)@.layers.elements.len(),
                |k: nat| Dispatch::Event(k),
            ),
            *event == WindowEvent::Other ==> action == WindowAction::Nothing && final(self)@.windows
                == old(self)@.windows,
            *event == WindowEvent::CloseRequested ==> !has_id(final(self)@.windows, id),
            *event == WindowEvent::CloseRequested && !has_id(old(self)@.windows, id) ==> action
                == WindowAction::Nothing && final(self)@.windows == old(self)@.windows,
            *event == WindowEvent::CloseRequested && has_id(old(self)@.windows, id) ==> action
                == WindowAction::Close && exists|i: int|
                0 <= i < old(self)@.windows.len() && #[trigger] old(self)@.windows[i].0 == id
                    && final(self)@.windows == old(self)@.windows.remove(i),
            forall|s: Size|
                *event == WindowEvent::Resized(s) && (s.is_degenerate() || !has_id(
                    old(self)@.windows,
                    id,
                )) ==> action == WindowAction::Nothing && final(self)@.windows == old(
                    self,
                )@.windows,
            forall|s: Size|
                *event == WindowEvent::Resized(s) && !s.is_degenerate() && has_id(
                    old(self)@.windows,
                    id,
                ) ==> action == WindowAction::Reconfigure(s) && exists|i: int|
                    0 <= i < old(self)@.windows.len() && old(self)@.windows[i].0 == id
                        && final(self)@.windows == old(self)@.windows.update(
                        i,
                        (id, final(self)@.windows[i].1),
                    ) && (#[trigger] final(self)@.windows[i].1)@ == (SessionView {
                        size: s,
                        phase: FramePhase::Configured,
                    }),
    {
        self.layer_stack.event_all(event);
        match *event {
            WindowEvent::CloseRequested => {
                match self.windows.remove(id) {
                    Some(_) => WindowAction::Close,
                    None => WindowAction::Nothing,
                }
            },
            WindowEvent::Resized(size) => {
                if size.degenerate() {
                    WindowAction::Nothing
                } else {
                    let ghost pre = self.windows@;
                    match self.windows.get_mut(id) {
                        Some(session) => {
                            let reconfigure = session.resize(size);
                            proof {
                                let j = choose|j: int|
                                    0 <= j < pre.len() && pre[j].0 == id && self.windows@
                                        == pre.update(j, (id, self.windows@[j].1));
                                assert(self.windows@[j].1@ == (SessionView {
                                    size,
                                    phase: FramePhase::Configured,
                                }));
                                assert(self@.windows == pre.update(j, (id, self@.windows[j].1)));
                            }
                            WindowAction::Reconfigure(size)
                        },
                        None => WindowAction::Nothing,
                    }
                }
            },
            WindowEvent::Other => WindowAction::Nothing,
        }
    }

    /// Ends a run that is shutting down: every layer is cleaned up, top overlay first
    /// and bottom layer last, every session is dropped, and the run stops. In any other
    /// phase nothing happens, so the layers are cleaned up once in a run.
    pub fn shutdown(&mut self) -> (stopped: bool)
        requires
            old(self).wf(),
        ensures
            final(self).wf(),
            stopped <==> old(self)@.phase == RunPhase::ShuttingDown,
            !stopped ==> final(self)@ == old(self)@ && final(self).dispatched() == old(
                self,
            ).dispatched(),
            stopped ==> final(self).dispatched() == old(self).dispatched() + top_down(
                old(self)@.layers.elements.len(),
                |k: nat| Dispatch::Cleanup(k),
            ),
            stopped ==> final(self)@.phase == RunPhase::Stopped && final(self)@.windows == Seq::<
                (u64, SurfaceSession),
            >::empty() && final(self)@.layers.elements.len() == old(self)@.layers.elements.len()
                && final(self)@.layers.overlay_start == old(self)@.layers.overlay_start,
    {
        if self.phase == RunPhase::ShuttingDown {
            self.layer_stack.cleanup_all();
            self.windows.clear();
            self.phase = RunPhase::Stopped;
            true
        } else {
            false
        }
    }
}

} // verus!
