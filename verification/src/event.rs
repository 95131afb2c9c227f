//! What the windowing layer tells the loop, what a render attempt can come
//! to, and what the loop asks of its driver in return.

use vstd::prelude::*;

verus! {

/// Something that happened to a window.
#[derive(Clone, Copy, Debug, PartialEq, Eq, Structural)]
pub enum WindowEvent {
    /// The window now has this size in physical pixels. A minimized window
    /// reports a size with a zero side.
    Resized { width: u32, height: u32 },
    /// The user asked to close the window.
    CloseRequested,
    /// Any other window event.
    Other,
}

/// One event of the windowing layer, in the order it was delivered.
#[derive(Clone, Copy, Debug, PartialEq, Eq, Structural)]
pub enum Event {
    /// Something happened to the window with this identifier.
    WindowEvent { window_id: u64, event: WindowEvent },
    /// The window with this identifier is ready to take a new frame.
    RedrawRequested { window_id: u64 },
    /// Every event of this cycle has been delivered.
    MainEventsCleared,
    /// Any other event.
    Other,
}

/// How an attempt to render and present one frame ended.
#[derive(Clone, Copy, Debug, PartialEq, Eq, Structural)]
pub enum RenderOutcome {
    /// The frame was composed and handed to the presentation engine.
    Success,
    /// The surface is lost, or outdated relative to the window.
    RecoverableStale,
    /// The device ran out of memory.
    FatalExhaustion,
    /// The presentation engine did not answer in time.
    TransientTimeout,
}

/// `wgpu::SurfaceError`, the ways in which acquiring the next frame fails,
/// with its variants as the crate defines them.
#[verifier::external_type_specification]
pub struct ExSurfaceError(wgpu::SurfaceError);

impl RenderOutcome {
    /// The outcome that a result of rendering and presenting stands for: a
    /// surface that is lost and one that is outdated are both stale.
    pub open spec fn of(result: Result<(), wgpu::SurfaceError>) -> RenderOutcome {
        match result {
            Ok(_) => RenderOutcome::Success,
            Err(wgpu::SurfaceError::Lost) => RenderOutcome::RecoverableStale,
            Err(wgpu::SurfaceError::Outdated) => RenderOutcome::RecoverableStale,
            Err(wgpu::SurfaceError::OutOfMemory) => RenderOutcome::FatalExhaustion,
            Err(wgpu::SurfaceError::Timeout) => RenderOutcome::TransientTimeout,
        }
    }

    /// Sorts the result of rendering and presenting one frame into the four
    /// outcomes.
    pub fn classify(result: &Result<(), wgpu::SurfaceError>) -> (outcome: RenderOutcome)
        ensures
            outcome == RenderOutcome::of(*result),
    {
        match result {
            Ok(_) => RenderOutcome::Success,
            Err(wgpu::SurfaceError::Lost) => RenderOutcome::RecoverableStale,
            Err(wgpu::SurfaceError::Outdated) => RenderOutcome::RecoverableStale,
            Err(wgpu::SurfaceError::OutOfMemory) => RenderOutcome::FatalExhaustion,
            Err(wgpu::SurfaceError::Timeout) => RenderOutcome::TransientTimeout,
        }
    }
}

/// A condition that is reported and otherwise left alone.
#[derive(Clone, Copy, Debug, PartialEq, Eq, Structural)]
pub enum Diagnostic {
    /// Acquiring the next frame timed out.
    SurfaceTimeout,
}

impl Diagnostic {
    /// The line to report.
    pub fn message(&self) -> (text: &'static str)
        ensures
            text@ == "Surface Timeout"@,
    {
        match self {
            Diagnostic::SurfaceTimeout => "Surface Timeout",
        }
    }
}

/// The one thing the loop asks of its driver after a step.
#[derive(Clone, Copy, Debug, PartialEq, Eq, Structural)]
pub enum Action {
    /// Nothing to do.
    Idle,
    /// Configure the surface with this size.
    Configure { width: u32, height: u32 },
    /// Render one frame and hand its outcome to `State::render_frame`.
    Render,
    /// Ask the window for another redraw.
    RequestRedraw,
    /// Report this diagnostic once.
    Report(Diagnostic),
    /// Leave the loop.
    Exit,
}

} // verus!
