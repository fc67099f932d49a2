use ferrite_engine::app::{App, AppState, EventAction, FrameOutcome, WindowEvent};
use ferrite_engine::wgpu_state::{
    AlphaMode, PhysicalSize, PresentMode, SurfaceCapabilities, SurfaceError, SurfaceFormat,
};

fn test_caps() -> SurfaceCapabilities {
    SurfaceCapabilities {
        formats: vec![
            SurfaceFormat { code: 1, srgb: false },
            SurfaceFormat { code: 2, srgb: true },
        ],
        present_modes: vec![PresentMode::Fifo, PresentMode::Immediate],
        alpha_modes: vec![AlphaMode::Auto],
    }
}

fn initialized_app() -> App {
    let mut app = App::new();
    app.initialize(&test_caps(), PhysicalSize { width: 800, height: 600 }, 1000, 0);
    app
}

fn config_extent(app: &App) -> (u32, u32) {
    match &app.state {
        AppState::Initialized { wgpu_state, .. } => (wgpu_state.config.width, wgpu_state.config.height),
        AppState::Uninitialized => panic!("not initialized"),
    }
}

#[test]
fn starts_uninitialized() {
    let app = App::new();
    assert!(matches!(app.state, AppState::Uninitialized));
}

#[test]
fn initialize_builds_engine_at_window_size() {
    let app = initialized_app();
    match &app.state {
        AppState::Initialized { wgpu_state, frame_stats, text_engine } => {
            // logical 800x600 at scale 1.0 is physical 800x600
            assert_eq!(wgpu_state.config.width, 800);
            assert_eq!(wgpu_state.config.height, 600);
            assert_eq!(wgpu_state.config.format, SurfaceFormat { code: 2, srgb: true });
            assert_eq!(wgpu_state.config.present_mode, PresentMode::Immediate);
            assert_eq!(wgpu_state.pipeline_format, wgpu_state.config.format);
            assert_eq!(frame_stats.frame_count, 0);
            assert_eq!(text_engine.atlas.glyphs.len(), 0);
        },
        AppState::Uninitialized => panic!("expected initialization"),
    }
}

#[test]
fn duplicate_resume_is_a_noop() {
    let mut app = App::new();
    app.resumed(&test_caps(), PhysicalSize { width: 800, height: 600 }, 1000, 0);
    app.window_event(WindowEvent::Resized(PhysicalSize { width: 1024, height: 768 }));
    // a second resume signal must not rebuild anything
    app.resumed(&test_caps(), PhysicalSize { width: 320, height: 200 }, 1000, 99);
    assert_eq!(config_extent(&app), (1024, 768));
}

#[test]
fn close_event_asks_for_exit() {
    let mut app = initialized_app();
    assert_eq!(app.window_event(WindowEvent::CloseRequested), EventAction::Exit);
}

#[test]
fn resize_event_reconfigures() {
    let mut app = initialized_app();
    let action = app.window_event(WindowEvent::Resized(PhysicalSize { width: 640, height: 480 }));
    assert_eq!(action, EventAction::Reconfigure);
    assert_eq!(config_extent(&app), (640, 480));
}

#[test]
fn resize_round_trip_keeps_second_size() {
    let mut app = initialized_app();
    app.window_event(WindowEvent::Resized(PhysicalSize { width: 640, height: 480 }));
    app.window_event(WindowEvent::Resized(PhysicalSize { width: 1920, height: 1080 }));
    assert_eq!(config_extent(&app), (1920, 1080));
}

#[test]
fn redraw_event_asks_for_render() {
    let mut app = initialized_app();
    assert_eq!(app.window_event(WindowEvent::RedrawRequested), EventAction::Render);
}

#[test]
fn events_before_initialization_are_ignored() {
    let mut app = App::new();
    let action = app.window_event(WindowEvent::Resized(PhysicalSize { width: 640, height: 480 }));
    assert_eq!(action, EventAction::Ignore);
    assert_eq!(app.window_event(WindowEvent::RedrawRequested), EventAction::Ignore);
    assert!(matches!(app.state, AppState::Uninitialized));
}

#[test]
fn begin_frame_before_initialization_draws_nothing() {
    let mut app = App::new();
    assert!(app.begin_frame().is_none());
}

#[test]
fn begin_frame_draws_the_rate_overlay() {
    let mut app = initialized_app();
    let draw = app.begin_frame().expect("initialized app must draw");
    assert_eq!(draw.resolution, PhysicalSize { width: 800, height: 600 });
    let text: String = draw.text.iter().collect();
    assert_eq!(text, "0 fps");
    assert_eq!(draw.left, 15);
    assert_eq!(draw.top, 0);
    assert_eq!(draw.font_size_milli, 20_000);
    match &app.state {
        AppState::Initialized { text_engine, .. } => {
            assert_eq!(text_engine.viewport.width, 800);
            assert_eq!(text_engine.viewport.height, 600);
            let buffer: String = text_engine.text_buffer.text.iter().collect();
            assert_eq!(buffer, "0 fps");
        },
        AppState::Uninitialized => panic!("expected initialization"),
    }
}

#[test]
fn successful_frame_trims_once_and_counts() {
    let mut app = initialized_app();
    app.begin_frame();
    let before = match &app.state {
        AppState::Initialized { text_engine, .. } => text_engine.atlas.referenced.clone(),
        AppState::Uninitialized => panic!("not initialized"),
    };
    let outcome = app.finish_frame(Ok(()), 10_000);
    assert_eq!(outcome, FrameOutcome::Rendered);
    match &app.state {
        AppState::Initialized { frame_stats, text_engine, .. } => {
            assert_eq!(frame_stats.frame_count, 1);
            // exactly the referenced glyphs stay resident, and the new frame
            // starts with nothing referenced
            assert_eq!(text_engine.atlas.glyphs, before);
            assert_eq!(text_engine.atlas.referenced.len(), 0);
        },
        AppState::Uninitialized => panic!("expected initialization"),
    }
}

#[test]
fn timeout_skips_the_frame() {
    let mut app = initialized_app();
    app.begin_frame();
    let outcome = app.finish_frame(Err(SurfaceError::Timeout), 10_000);
    assert_eq!(outcome, FrameOutcome::SkippedRetry);
    match &app.state {
        AppState::Initialized { frame_stats, .. } => assert_eq!(frame_stats.frame_count, 0),
        AppState::Uninitialized => panic!("expected initialization"),
    }
}

#[test]
fn out_of_memory_is_fatal() {
    let mut app = initialized_app();
    app.begin_frame();
    let outcome = app.finish_frame(Err(SurfaceError::OutOfMemory), 10_000);
    assert_eq!(outcome, FrameOutcome::FatalError(SurfaceError::OutOfMemory));
}

#[test]
fn outdated_surface_recovers_on_the_next_frame() {
    let mut app = initialized_app();
    app.begin_frame();
    let outcome = app.finish_frame(Err(SurfaceError::Outdated), 10_000);
    // the failure asks for a reconfigure from the stored configuration
    assert_eq!(outcome, FrameOutcome::Reconfigured);
    assert_eq!(config_extent(&app), (800, 600));
    // the very next frame renders normally
    assert!(app.begin_frame().is_some());
    assert_eq!(app.finish_frame(Ok(()), 20_000), FrameOutcome::Rendered);
}

#[test]
fn identical_frames_leave_the_atlas_unchanged() {
    let mut app = initialized_app();
    app.begin_frame();
    app.finish_frame(Ok(()), 10_000);
    let after_first = match &app.state {
        AppState::Initialized { text_engine, .. } => text_engine.atlas.glyphs.len(),
        AppState::Uninitialized => panic!("not initialized"),
    };
    // the rate has not been resampled, so the second frame draws the same text
    app.begin_frame();
    app.finish_frame(Ok(()), 20_000);
    let after_second = match &app.state {
        AppState::Initialized { text_engine, .. } => text_engine.atlas.glyphs.len(),
        AppState::Uninitialized => panic!("not initialized"),
    };
    assert_eq!(after_first, after_second);
    assert!(after_first > 0);
}
