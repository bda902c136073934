//! What the demo's event loop does with each window event and with each frame
//! that failed to render. The loop itself (waiting for events, drawing,
//! exiting the process) is the caller's; these functions decide.

use vstd::prelude::*;
use crate::render::surface_manager::{SurfaceSettingsView, after_resize, resize_applies};

verus! {

/// A window event, as far as the loop looks at it.
#[derive(Clone, Copy, Debug, PartialEq, Eq)]
pub enum WindowSignal {
    /// The user asked to close the window.
    CloseRequested,
    /// The window's inner size changed.
    Resized { width: u32, height: u32 },
    /// The scale factor changed, giving the window this inner size.
    ScaleFactorChanged { width: u32, height: u32 },
    /// All pending events were handled: time for the next frame.
    FrameDue,
    /// Any other event.
    Other,
}

/// What the loop does next.
#[derive(Clone, Copy, Debug, PartialEq, Eq)]
pub enum LoopAction {
    /// Leave the loop; the process exits with `code`.
    Exit { code: i32 },
    /// Resize the engine's surface to `width` x `height`.
    Resize { width: u32, height: u32 },
    /// Advance the engine by one frame, then draw it.
    UpdateAndRender,
    /// Nothing to do.
    Continue,
}

/// Why a frame failed to render.
#[derive(Clone, Copy, Debug, PartialEq, Eq)]
pub enum RenderFailure {
    /// The surface was lost and must be configured again.
    SurfaceLost,
    /// The GPU ran out of memory.
    OutOfMemory,
    /// Anything else; the frame is skipped.
    Other,
}

/// The action for an event: events of other windows are ignored; a close
/// request exits with code 0; a new size (from a resize or a scale-factor
/// change) resizes the surface; a due frame is updated and drawn.
pub open spec fn window_event_action(signal: WindowSignal, from_main_window: bool) -> LoopAction {
    if !from_main_window {
        LoopAction::Continue
    } else {
        match signal {
            WindowSignal::CloseRequested => LoopAction::Exit { code: 0 },
            WindowSignal::Resized { width, height } => LoopAction::Resize { width, height },
            WindowSignal::ScaleFactorChanged { width, height } => LoopAction::Resize { width, height },
            WindowSignal::FrameDue => LoopAction::UpdateAndRender,
            WindowSignal::Other => LoopAction::Continue,
        }
    }
}

/// The action after a failed frame: a lost surface is resized to the size it
/// has, which configures it again; running out of memory exits with code 1;
/// any other failure skips the frame.
pub open spec fn render_failure_action(failure: RenderFailure, surface_width: u32, surface_height: u32) -> LoopAction {
    match failure {
        RenderFailure::SurfaceLost => LoopAction::Resize { width: surface_width, height: surface_height },
        RenderFailure::OutOfMemory => LoopAction::Exit { code: 1 },
        RenderFailure::Other => LoopAction::Continue,
    }
}

/// Decides what the loop does with `signal`; `from_main_window` says whether
/// the event is addressed to the demo's window.
pub fn on_window_event(signal: WindowSignal, from_main_window: bool) -> (action: LoopAction)
    ensures
        action == window_event_action(signal, from_main_window),
        !from_main_window ==> action == LoopAction::Continue,
        from_main_window ==> match signal {
            WindowSignal::CloseRequested => action == (LoopAction::Exit { code: 0 }),
            WindowSignal::Resized { width, height } => action == (LoopAction::Resize { width, height }),
            WindowSignal::ScaleFactorChanged { width, height } => action == (LoopAction::Resize {
                width,
                height,
            }),
            WindowSignal::FrameDue => action == LoopAction::UpdateAndRender,
            WindowSignal::Other => action == LoopAction::Continue,
        },
{
    if !from_main_window {
        return LoopAction::Continue;
    }
    match signal {
        WindowSignal::CloseRequested => LoopAction::Exit { code: 0 },
        WindowSignal::Resized { width, height } => LoopAction::Resize { width, height },
        WindowSignal::ScaleFactorChanged { width, height } => LoopAction::Resize { width, height },
        WindowSignal::FrameDue => LoopAction::UpdateAndRender,
        WindowSignal::Other => LoopAction::Continue,
    }
}

/// Decides what the loop does after a frame failed with `failure`, on a
/// surface of `surface_width` x `surface_height`.
pub fn on_render_failure(failure: RenderFailure, surface_width: u32, surface_height: u32) -> (action: LoopAction)
    ensures
        action == render_failure_action(failure, surface_width, surface_height),
        failure == RenderFailure::SurfaceLost ==> action == (LoopAction::Resize {
            width: surface_width,
            height: surface_height,
        }),
        failure == RenderFailure::OutOfMemory ==> action == (LoopAction::Exit { code: 1 }),
        failure == RenderFailure::Other ==> action == LoopAction::Continue,
{
    match failure {
        RenderFailure::SurfaceLost => LoopAction::Resize { width: surface_width, height: surface_height },
        RenderFailure::OutOfMemory => LoopAction::Exit { code: 1 },
        RenderFailure::Other => LoopAction::Continue,
    }
}

/// The main window's events are answered the same whatever sizes they carry:
/// a close request exits with code 0, a resize or a scale-factor change
/// resizes the surface to exactly the size reported (width as width, height as
/// height), a due frame is updated and drawn, anything else is ignored.
pub proof fn lemma_window_events_exact(width: u32, height: u32)
    ensures
        window_event_action(WindowSignal::CloseRequested, true) == (LoopAction::Exit { code: 0 }),
        window_event_action(WindowSignal::Resized { width, height }, true) == (LoopAction::Resize {
            width,
            height,
        }),
        window_event_action(WindowSignal::ScaleFactorChanged { width, height }, true)
            == (LoopAction::Resize { width, height }),
        window_event_action(WindowSignal::FrameDue, true) == LoopAction::UpdateAndRender,
        window_event_action(WindowSignal::Other, true) == LoopAction::Continue,
{
}

/// Whatever the surface's size: running out of memory exits with code 1, a
/// lost surface is resized to exactly its size, any other failure skips the
/// frame.
pub proof fn lemma_render_failures_exact(surface_width: u32, surface_height: u32)
    ensures
        render_failure_action(RenderFailure::OutOfMemory, surface_width, surface_height)
            == (LoopAction::Exit { code: 1 }),
        render_failure_action(RenderFailure::SurfaceLost, surface_width, surface_height)
            == (LoopAction::Resize { width: surface_width, height: surface_height }),
        render_failure_action(RenderFailure::Other, surface_width, surface_height)
            == LoopAction::Continue,
{
}

/// Recovering from a lost surface configures it again without changing it:
/// the loop resizes the surface to the size it has, that resize is applied
/// (so the surface is reconfigured), and the settings come out as they were.
pub proof fn lemma_lost_surface_recovery(s: SurfaceSettingsView)
    requires
        s.width >= 1,
        s.height >= 1,
    ensures
        render_failure_action(RenderFailure::SurfaceLost, s.width, s.height)
            == (LoopAction::Resize { width: s.width, height: s.height }),
        resize_applies(s.width, s.height),
        after_resize(s, s.width, s.height) == s,
{
}

/// Events addressed to another window never change anything: whatever the
/// event, the loop just goes on.
pub proof fn lemma_other_windows_ignored(signal: WindowSignal)
    ensures
        window_event_action(signal, false) == LoopAction::Continue,
{
}

} // verus!
