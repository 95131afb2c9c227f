//! What holds of every loop, whatever its state and whatever it is handed.

use vstd::prelude::*;
use crate::event::{Action, Diagnostic, Event, RenderOutcome, WindowEvent};
use crate::state::LoopModel;
use crate::surface::Extent;

verus! {

/// After a resize to a size with no zero side, the stored size is exactly
/// that size, and the surface is to be configured with it.
pub proof fn lemma_resize_stores_size(m: LoopModel, width: u32, height: u32)
    requires
        width > 0,
        height > 0,
    ensures
        m.on_resize(width, height).0.size == (Extent { width, height }),
        m.on_resize(width, height).0 == (LoopModel { size: Extent { width, height }, ..m }),
        m.on_resize(width, height).1 == (Action::Configure { width, height }),
{
}

/// A resize to a size with a zero side leaves the loop as it was, stored
/// size included, and asks for nothing.
pub proof fn lemma_resize_ignores_zero_side(m: LoopModel, width: u32, height: u32)
    requires
        width == 0 || height == 0,
    ensures
        m.on_resize(width, height) == (m, Action::Idle),
{
}

/// Resizing twice in a row to the same size leaves the loop where resizing
/// once leaves it; the second call only asks for the same configuration
/// again.
pub proof fn lemma_resize_idempotent(m: LoopModel, width: u32, height: u32)
    ensures
        m.on_resize(width, height).0.on_resize(width, height) == m.on_resize(width, height),
{
}

/// The four outcomes sort the results of rendering without overlap: lost
/// and outdated surfaces are stale, a lack of memory is exhaustion, a
/// timeout is a timeout, and only a presented frame is a success.
pub proof fn lemma_outcomes_sort_results(result: Result<(), wgpu::SurfaceError>)
    ensures
        RenderOutcome::of(result) == RenderOutcome::RecoverableStale <==> (result matches Err(
            wgpu::SurfaceError::Lost,
        ) || result matches Err(wgpu::SurfaceError::Outdated)),
        RenderOutcome::of(result) == RenderOutcome::FatalExhaustion <==> result matches Err(
            wgpu::SurfaceError::OutOfMemory,
        ),
        RenderOutcome::of(result) == RenderOutcome::TransientTimeout <==> result matches Err(
            wgpu::SurfaceError::Timeout,
        ),
        RenderOutcome::of(result) == RenderOutcome::Success <==> result is Ok,
{
}

/// A stale surface asks for exactly one configuration, with the stored
/// size, and changes nothing: a running loop keeps running. It is the
/// configuration that a resize to the stored size asks for.
pub proof fn lemma_stale_reconfigures(m: LoopModel)
    ensures
        m.render_frame(RenderOutcome::RecoverableStale) == (
            m,
            Action::Configure { width: m.size.width, height: m.size.height },
        ),
        m.wf() ==> m.render_frame(RenderOutcome::RecoverableStale) == m.on_resize(
            m.size.width,
            m.size.height,
        ),
{
}

/// Exhaustion ends the loop: it asks to leave, and from then on every
/// event is answered by the request to leave, so that no further frame is
/// rendered and nothing changes any more.
pub proof fn lemma_exhaustion_terminates(m: LoopModel, event: Event)
    ensures
        m.render_frame(RenderOutcome::FatalExhaustion) == (
            LoopModel { active: false, ..m },
            Action::Exit,
        ),
        ({
            let ended = m.render_frame(RenderOutcome::FatalExhaustion).0;
            ended.run(event) == (ended, Action::Exit)
        }),
{
}

/// A timeout changes nothing, asks for no configuration, and is reported
/// exactly once.
pub proof fn lemma_timeout_reports(m: LoopModel)
    ensures
        m.render_frame(RenderOutcome::TransientTimeout) == (
            m,
            Action::Report(Diagnostic::SurfaceTimeout),
        ),
{
}

/// A frame that was presented changes nothing and asks for nothing.
pub proof fn lemma_success_is_silent(m: LoopModel)
    ensures
        m.render_frame(RenderOutcome::Success) == (m, Action::Idle),
{
}

/// A loop that has ended stays ended and never asks for a frame again.
pub proof fn lemma_ended_loop_stays_ended(m: LoopModel, event: Event)
    requires
        !m.active,
    ensures
        m.run(event) == (m, Action::Exit),
{
}

/// A frame is asked for only by a running loop, and only on a redraw
/// request of its own window; the stored size and the loop's state are
/// untouched by it.
pub proof fn lemma_render_only_on_redraw(m: LoopModel, event: Event)
    ensures
        m.run(event).1 == Action::Render <==> m.active && event == (Event::RedrawRequested {
            window_id: m.window,
        }),
        m.run(event).1 == Action::Render ==> m.run(event).0 == m,
{
}

/// The end of a cycle always asks a running loop for another redraw.
pub proof fn lemma_continuous_redraw(m: LoopModel)
    requires
        m.active,
    ensures
        m.run(Event::MainEventsCleared) == (m, Action::RequestRedraw),
{
}

/// Events of another window change nothing and ask for nothing.
pub proof fn lemma_foreign_window_ignored(m: LoopModel, window_id: u64, event: WindowEvent)
    requires
        m.active,
        window_id != m.window,
    ensures
        m.run(Event::WindowEvent { window_id, event }) == (m, Action::Idle),
        m.run(Event::RedrawRequested { window_id }) == (m, Action::Idle),
{
}

/// No step gives the surface a size with a zero side, and no step changes
/// the window the loop drives.
pub proof fn lemma_steps_keep_surface_configured(
    m: LoopModel,
    event: Event,
    outcome: RenderOutcome,
    width: u32,
    height: u32,
)
    requires
        m.wf(),
    ensures
        m.on_resize(width, height).0.wf(),
        m.render_frame(outcome).0.wf(),
        m.run(event).0.wf(),
        m.on_resize(width, height).0.window == m.window,
        m.render_frame(outcome).0.window == m.window,
        m.run(event).0.window == m.window,
{
}

/// The stored size changes only on a resize of the loop's own window to a
/// size with no zero side, and then it becomes that size.
pub proof fn lemma_size_changes_only_on_resize(m: LoopModel, event: Event, outcome: RenderOutcome)
    ensures
        m.render_frame(outcome).0.size == m.size,
        m.run(event).0.size != m.size ==> {
            &&& m.active
            &&& event matches Event::WindowEvent {
                window_id,
                event: WindowEvent::Resized { width, height },
            }
            &&& window_id == m.window
            &&& width > 0
            &&& height > 0
            &&& m.run(event).0.size == (Extent { width, height })
        },
{
}

/// A close request for the loop's own window ends a running loop, and
/// leaves the stored size alone.
pub proof fn lemma_close_request_ends_loop(m: LoopModel)
    requires
        m.active,
    ensures
        m.run(Event::WindowEvent { window_id: m.window, event: WindowEvent::CloseRequested }) == (
            LoopModel { active: false, ..m },
            Action::Exit,
        ),
{
}

} // verus!
