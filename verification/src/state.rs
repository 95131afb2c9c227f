//! The loop's state and its transitions.
//!
//! The driver owns the window, the surface and the renderer. It hands every
//! event to [`State::run`] and performs the [`Action`] that comes back; after
//! rendering a frame it hands the outcome to [`State::render_frame`] and
//! performs that action too.

use vstd::prelude::*;
use crate::event::{Action, Diagnostic, Event, RenderOutcome, WindowEvent};
use crate::surface::{resized, Extent, SurfaceState};
use crate::vertex_lib::{num_indices, num_vertices, INDICES, VERTEX_COUNT};

verus! {

/// What a [`State`] stands for.
pub struct LoopModel {
    /// The window the loop drives.
    pub window: u64,
    /// The size the surface is configured with.
    pub size: Extent,
    /// False once the loop has been told to end.
    pub active: bool,
}

impl LoopModel {
    /// The surface is configured with a size that has no zero side.
    pub open spec fn wf(self) -> bool {
        self.size.configurable()
    }

    /// The loop after a resize request, and what it asks for: a size with no
    /// zero side is stored and configured, any other changes nothing.
    pub open spec fn on_resize(self, width: u32, height: u32) -> (LoopModel, Action) {
        (
            LoopModel { size: resized(self.size, Extent { width, height }), ..self },
            if width > 0 && height > 0 {
                Action::Configure { width, height }
            } else {
                Action::Idle
            },
        )
    }

    /// The loop after a render attempt that ended in `outcome`, and what it
    /// asks for.
    pub open spec fn render_frame(self, outcome: RenderOutcome) -> (LoopModel, Action) {
        match outcome {
            RenderOutcome::Success => (self, Action::Idle),
            RenderOutcome::RecoverableStale => (
                self,
                Action::Configure { width: self.size.width, height: self.size.height },
            ),
            RenderOutcome::FatalExhaustion => (LoopModel { active: false, ..self }, Action::Exit),
            RenderOutcome::TransientTimeout => (self, Action::Report(Diagnostic::SurfaceTimeout)),
        }
    }

    /// The loop after an event of its own window, and what it asks for.
    pub open spec fn on_event(self, event: WindowEvent) -> (LoopModel, Action) {
        match event {
            WindowEvent::CloseRequested => (LoopModel { active: false, ..self }, Action::Exit),
            WindowEvent::Resized { width, height } => self.on_resize(width, height),
            WindowEvent::Other => (self, Action::Idle),
        }
    }

    /// The loop after one event of the windowing layer, and what it asks
    /// for. A loop that has ended stays as it is and asks to leave.
    pub open spec fn run(self, event: Event) -> (LoopModel, Action) {
        if !self.active {
            (self, Action::Exit)
        } else {
            match event {
                Event::WindowEvent { window_id, event } => if window_id == self.window {
                    self.on_event(event)
                } else {
                    (self, Action::Idle)
                },
                Event::RedrawRequested { window_id } => if window_id == self.window {
                    (self, Action::Render)
                } else {
                    (self, Action::Idle)
                },
                Event::MainEventsCleared => (self, Action::RequestRedraw),
                Event::Other => (self, Action::Idle),
            }
        }
    }
}

/// The state of the loop that keeps one window's surface drawn.
pub struct State {
    window: u64,
    surface: SurfaceState,
    active: bool,
    num_vertices: u32,
    num_indices: u32,
}

impl View for State {
    type V = LoopModel;

    closed spec fn view(&self) -> LoopModel {
        LoopModel { window: self.window, size: self.surface@, active: self.active }
    }
}

impl State {
    #[verifier::type_invariant]
    spec fn counts_geometry(&self) -> bool {
        self.num_vertices == VERTEX_COUNT && self.num_indices == INDICES@.len()
    }

    /// An active loop for the window `window`, whose surface has been
    /// configured with the window's size.
    pub fn new(window: u64, width: u32, height: u32) -> (state: Self)
        requires
            width > 0,
            height > 0,
        ensures
            state@ == (LoopModel { window, size: Extent { width, height }, active: true }),
    {
        State {
            window,
            surface: SurfaceState::new(width, height),
            active: true,
            num_vertices: num_vertices(),
            num_indices: num_indices(),
        }
    }

    /// The number of vertices in the vertex buffer.
    pub fn num_vertices(&self) -> (n: u32)
        ensures
            n == VERTEX_COUNT,
    {
        proof {
            use_type_invariant(self);
        }
        self.num_vertices
    }

    /// The number of indices one frame draws.
    pub fn num_indices(&self) -> (n: u32)
        ensures
            n == INDICES@.len(),
    {
        proof {
            use_type_invariant(self);
        }
        self.num_indices
    }

    /// The identifier of the window the loop drives.
    pub fn window(&self) -> (id: u64)
        ensures
            id == self@.window,
    {
        self.window
    }

    /// The size the surface is configured with.
    pub fn size(&self) -> (size: Extent)
        ensures
            size == self@.size,
            self@.wf(),
    {
        self.surface.size()
    }

    /// Whether the loop is still running.
    pub fn is_active(&self) -> (active: bool)
        ensures
            active == self@.active,
    {
        self.active
    }

    /// Takes a new window size. A size with a zero side changes nothing and
    /// asks for nothing; any other is stored, and the surface is to be
    /// configured with it.
    pub fn on_resize(&mut self, width: u32, height: u32) -> (action: Action)
        ensures
            (final(self)@, action) == old(self)@.on_resize(width, height),
            final(self)@.wf(),
    {
        proof {
            use_type_invariant(&*self);
        }
        if self.surface.on_resize(width, height) {
            Action::Configure { width, height }
        } else {
            Action::Idle
        }
    }

    /// The hook that sees a window event before the loop handles it. It
    /// consumes none.
    #[allow(unused_variables)]
    pub fn input(&mut self, event: &WindowEvent) -> (consumed: bool)
        ensures
            !consumed,
            final(self)@ == old(self)@,
    {
        false
    }

    /// Handles an event of the loop's own window, unless the input hook
    /// consumed it: a close request ends the loop, a new size goes to
    /// [`State::on_resize`], anything else is ignored.
    pub fn on_event(&mut self, event: &WindowEvent) -> (action: Action)
        ensures
            (final(self)@, action) == old(self)@.on_event(*event),
    {
        if self.input(event) {
            Action::Idle
        } else {
            proof {
                use_type_invariant(&*self);
            }
            match *event {
                WindowEvent::CloseRequested => {
                    self.active = false;
                    Action::Exit
                },
                WindowEvent::Resized { width, height } => self.on_resize(width, height),
                WindowEvent::Other => Action::Idle,
            }
        }
    }

    /// Takes the outcome of a render attempt and applies the policy for it:
    /// a stale surface is configured again with the stored size, exhaustion
    /// ends the loop, a timeout is reported, and success asks for nothing.
    pub fn render_frame(&mut self, outcome: RenderOutcome) -> (action: Action)
        ensures
            (final(self)@, action) == old(self)@.render_frame(outcome),
            final(self)@.wf(),
    {
        proof {
            use_type_invariant(&*self);
        }
        let size = self.surface.size();
        match outcome {
            RenderOutcome::Success => Action::Idle,
            RenderOutcome::RecoverableStale => self.on_resize(size.width, size.height),
            RenderOutcome::FatalExhaustion => {
                self.active = false;
                Action::Exit
            },
            RenderOutcome::TransientTimeout => Action::Report(Diagnostic::SurfaceTimeout),
        }
    }

    /// Takes one event of the windowing layer. Events of other windows are
    /// ignored; a redraw request asks for a frame; the end of a cycle asks
    /// for the next redraw, so the loop redraws continuously.
    pub fn run(&mut self, event: Event) -> (action: Action)
        ensures
            (final(self)@, action) == old(self)@.run(event),
    {
        if !self.active {
            return Action::Exit;
        }
        match event {
            Event::WindowEvent { window_id, event } => {
                if window_id == self.window {
                    self.on_event(&event)
                } else {
                    Action::Idle
                }
            },
            Event::RedrawRequested { window_id } => {
                if window_id == self.window {
                    Action::Render
                } else {
                    Action::Idle
                }
            },
            Event::MainEventsCleared => Action::RequestRedraw,
            Event::Other => Action::Idle,
        }
    }
}

} // verus!
