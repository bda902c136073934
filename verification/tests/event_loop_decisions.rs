use nucleus::event_loop::{on_render_failure, on_window_event, LoopAction, RenderFailure, WindowSignal};
use nucleus::render::surface_manager::SurfaceSettings;

#[test]
fn close_request_exits_with_zero() {
    assert_eq!(on_window_event(WindowSignal::CloseRequested, true), LoopAction::Exit { code: 0 });
}

#[test]
fn resize_events_resize_the_surface() {
    assert_eq!(
        on_window_event(WindowSignal::Resized { width: 800, height: 600 }, true),
        LoopAction::Resize { width: 800, height: 600 }
    );
    assert_eq!(
        on_window_event(WindowSignal::ScaleFactorChanged { width: 1280, height: 960 }, true),
        LoopAction::Resize { width: 1280, height: 960 }
    );
    assert_eq!(
        on_window_event(WindowSignal::Resized { width: 0, height: 0 }, true),
        LoopAction::Resize { width: 0, height: 0 }
    );
}

#[test]
fn due_frame_is_updated_and_drawn() {
    assert_eq!(on_window_event(WindowSignal::FrameDue, true), LoopAction::UpdateAndRender);
    assert_eq!(on_window_event(WindowSignal::Other, true), LoopAction::Continue);
}

#[test]
fn events_of_other_windows_are_ignored() {
    assert_eq!(on_window_event(WindowSignal::CloseRequested, false), LoopAction::Continue);
    assert_eq!(
        on_window_event(WindowSignal::Resized { width: 10, height: 10 }, false),
        LoopAction::Continue
    );
    assert_eq!(on_window_event(WindowSignal::FrameDue, false), LoopAction::Continue);
}

#[test]
fn render_failures() {
    assert_eq!(
        on_render_failure(RenderFailure::SurfaceLost, 640, 480),
        LoopAction::Resize { width: 640, height: 480 }
    );
    assert_eq!(on_render_failure(RenderFailure::OutOfMemory, 640, 480), LoopAction::Exit { code: 1 });
    assert_eq!(on_render_failure(RenderFailure::Other, 640, 480), LoopAction::Continue);
}

#[test]
fn lost_surface_recovery_keeps_the_size() {
    let mut s = SurfaceSettings::new(640, 480, &vec![false, true], 1);
    match on_render_failure(RenderFailure::SurfaceLost, s.width(), s.height()) {
        LoopAction::Resize { width, height } => {
            assert!(s.resize(width, height));
        }
        other => panic!("unexpected action {:?}", other),
    }
    assert_eq!((s.width(), s.height(), s.format_index()), (640, 480, 1));
}
