//! The application state machine: a two-state lifecycle driven by window
//! events, and the per-frame render step.
//!
//! The host binary owns the platform window and the event loop; it lowers
//! each notification to a [`WindowEvent`], hands it to [`App::window_event`],
//! and performs the action that comes back (exiting, reconfiguring the
//! surface, or running a frame). A frame runs in two halves around the one
//! outside step the logic cannot take itself, acquiring the next presentable
//! surface image: [`App::begin_frame`] produces everything the frame draws,
//! and [`App::finish_frame`] takes the acquisition outcome, classifies any
//! failure, and closes the completed frame with the atlas trim and the
//! statistics update.

use crate::frame_stats::{fps_display, fps_display_spec, FrameStats};
use crate::text_engine::{is_glyph_of, Color, GlyphKey, TextEngine};
use crate::wgpu_state::{
    surface_error_class, PhysicalSize, SurfaceCapabilities, SurfaceError, SurfaceErrorClass,
    WgpuState,
};
use vstd::prelude::*;

verus! {

/// Horizontal position of the diagnostic overlay, in pixels.
pub const OVERLAY_LEFT: u32 = 15;

/// Vertical position of the diagnostic overlay, in pixels.
pub const OVERLAY_TOP: u32 = 0;

/// Font size of the diagnostic overlay, in thousandths of a point.
pub const OVERLAY_FONT_SIZE_MILLI: u32 = 20_000;

/// The two-state application lifecycle: everything the engine owns exists
/// exactly when the state is initialized.
pub enum AppState {
    Uninitialized,
    Initialized { wgpu_state: WgpuState, frame_stats: FrameStats, text_engine: TextEngine },
}

/// A window-system notification, lowered to plain values by the host binary.
#[derive(Clone, Copy, PartialEq, Eq, Structural, Debug)]
pub enum WindowEvent {
    CloseRequested,
    Resized(PhysicalSize),
    RedrawRequested,
}

/// What the host binary must do after an event is dispatched.
#[derive(Clone, Copy, PartialEq, Eq, Structural, Debug)]
pub enum EventAction {
    /// Terminate the process.
    Exit,
    /// Reconfigure the surface from the stored configuration.
    Reconfigure,
    /// Run the two-phase render step, then request another redraw.
    Render,
    /// Nothing.
    Ignore,
}

/// How a frame ended.
#[derive(Clone, Copy, PartialEq, Eq, Structural, Debug)]
pub enum FrameOutcome {
    /// The frame was drawn, presented, trimmed and counted.
    Rendered,
    /// Acquisition timed out; the frame is skipped and retried next cycle.
    SkippedRetry,
    /// The surface was invalid or outdated; the host binary reconfigures it
    /// from the stored configuration and the next frame retries.
    Reconfigured,
    /// An unrecoverable acquisition failure, surfaced to the caller.
    FatalError(SurfaceError),
}

/// Everything one frame draws: the viewport resolution and the diagnostic
/// overlay's text, position, size and color.
pub struct FrameDraw {
    pub resolution: PhysicalSize,
    pub text: Vec<char>,
    pub left: u32,
    pub top: u32,
    pub font_size_milli: u32,
    pub color: Color,
}

/// The application: a window-event-driven two-state machine.
pub struct App {
    pub state: AppState,
}

/// The state as a resize leaves it: the stored configuration's extent
/// follows the new size, everything else stays.
pub open spec fn resized_state(s: AppState, new_size: PhysicalSize) -> AppState {
    match s {
        AppState::Uninitialized => AppState::Uninitialized,
        AppState::Initialized { wgpu_state, frame_stats, text_engine } => AppState::Initialized {
            wgpu_state: wgpu_state.resized(new_size),
            frame_stats,
            text_engine,
        },
    }
}

impl App {
    /// Every component the state owns is coherent.
    pub open spec fn well_formed(self) -> bool {
        match self.state {
            AppState::Uninitialized => true,
            AppState::Initialized { wgpu_state, frame_stats, text_engine } => {
                &&& wgpu_state.well_formed()
                &&& frame_stats.well_formed()
                &&& text_engine.well_formed()
            },
        }
    }

    /// Starts uninitialized; the first resume signal builds the engine.
    pub fn new() -> (app: App)
        ensures
            app.state is Uninitialized,
            app.well_formed(),
    {
        App { state: AppState::Uninitialized }
    }

    /// Builds the engine from the window's surface capabilities, physical
    /// size and display scale factor (in thousandths), starting the frame
    /// statistics at clock reading `now_us`. A second call is a no-op: the
    /// lifecycle never leaves the initialized state.
    pub fn initialize(
        &mut self,
        capabilities: &SurfaceCapabilities,
        window_size: PhysicalSize,
        scale_factor_milli: u64,
        now_us: u64,
    )
        requires
            old(self).well_formed(),
            capabilities.formats@.len() > 0,
            capabilities.alpha_modes@.len() > 0,
            scale_factor_milli <= 0xffff_ffff,
        ensures
            final(self).well_formed(),
            final(self).state is Initialized,
            old(self).state is Initialized ==> *final(self) == *old(self),
            old(self).state is Uninitialized ==> (final(self).state matches AppState::Initialized {
                wgpu_state,
                frame_stats,
                text_engine,
            } && wgpu_state == WgpuState::initial(*capabilities, window_size) && frame_stats
                == FrameStats::initial(now_us) && text_engine.viewport == (
            crate::text_engine::Viewport { width: 0, height: 0 })
                && text_engine.atlas.glyphs@.len() == 0 && text_engine.atlas.referenced@.len() == 0
                && text_engine.text_buffer.text@.len() == 0 && text_engine.text_buffer.metrics
                == TextEngine::scaled_metrics(scale_factor_milli) && text_engine.last_area is None),
    {
        let already = match &self.state {
            AppState::Uninitialized => false,
            AppState::Initialized { .. } => true,
        };
        if !already {
            let wgpu_state = WgpuState::default(capabilities, window_size);
            let text_engine = TextEngine::default(scale_factor_milli);
            let frame_stats = FrameStats::new(now_us);
            self.state = AppState::Initialized { wgpu_state, frame_stats, text_engine };
        }
    }

    /// The resume signal: builds the engine the first time, and is a no-op on
    /// every later delivery.
    pub fn resumed(
        &mut self,
        capabilities: &SurfaceCapabilities,
        window_size: PhysicalSize,
        scale_factor_milli: u64,
        now_us: u64,
    )
        requires
            old(self).well_formed(),
            capabilities.formats@.len() > 0,
            capabilities.alpha_modes@.len() > 0,
            scale_factor_milli <= 0xffff_ffff,
        ensures
            final(self).well_formed(),
            final(self).state is Initialized,
            old(self).state is Initialized ==> *final(self) == *old(self),
            old(self).state is Uninitialized ==> (final(self).state matches AppState::Initialized {
                wgpu_state,
                frame_stats,
                text_engine,
            } && wgpu_state == WgpuState::initial(*capabilities, window_size) && frame_stats
                == FrameStats::initial(now_us) && text_engine.last_area is None),
    {
        self.initialize(capabilities, window_size, scale_factor_milli, now_us);
    }

    /// Stores the new physical size and rewrites the stored configuration's
    /// extent; the host binary then reconfigures the surface from it. A no-op
    /// before initialization.
    pub fn resize_surface(&mut self, new_size: PhysicalSize)
        requires
            old(self).well_formed(),
        ensures
            final(self).well_formed(),
            final(self).state == resized_state(old(self).state, new_size),
    {
        match &mut self.state {
            AppState::Initialized { wgpu_state, .. } => {
                wgpu_state.resize(new_size);
            },
            AppState::Uninitialized => {},
        }
    }

    /// Dispatches one window event: close asks for exit, a resize updates the
    /// stored configuration and asks for a surface reconfigure, a redraw asks
    /// for a render step. Events before initialization change nothing.
    pub fn window_event(&mut self, event: WindowEvent) -> (action: EventAction)
        requires
            old(self).well_formed(),
        ensures
            final(self).well_formed(),
            match event {
                WindowEvent::CloseRequested => *final(self) == *old(self) && action
                    == EventAction::Exit,
                WindowEvent::Resized(new_size) => final(self).state == resized_state(
                    old(self).state,
                    new_size,
                ) && action == if old(self).state is Initialized {
                    EventAction::Reconfigure
                } else {
                    EventAction::Ignore
                },
                WindowEvent::RedrawRequested => *final(self) == *old(self) && action == if old(
                    self,
                ).state is Initialized {
                    EventAction::Render
                } else {
                    EventAction::Ignore
                },
            },
    {
        let initialized = match &self.state {
            AppState::Uninitialized => false,
            AppState::Initialized { .. } => true,
        };
        match event {
            WindowEvent::CloseRequested => EventAction::Exit,
            WindowEvent::Resized(new_size) => {
                self.resize_surface(new_size);
                if initialized {
                    EventAction::Reconfigure
                } else {
                    EventAction::Ignore
                }
            },
            WindowEvent::RedrawRequested => {
                if initialized {
                    EventAction::Render
                } else {
                    EventAction::Ignore
                }
            },
        }
    }

    /// The first half of the render step: pushes the current surface size
    /// into the text viewport, regenerates the diagnostic text from the
    /// current rate, re-shapes it into the layout buffer and the atlas, and
    /// returns everything the host binary draws this frame. Returns nothing
    /// before initialization.
    pub fn begin_frame(&mut self) -> (draw: Option<FrameDraw>)
        requires
            old(self).well_formed(),
        ensures
            final(self).well_formed(),
            old(self).state is Uninitialized ==> *final(self) == *old(self) && draw is None,
            old(self).state is Initialized ==> final(self).state is Initialized,
            (match (old(self).state, final(self).state) {
                (
                    AppState::Initialized { wgpu_state: w0, frame_stats: f0, text_engine: t0 },
                    AppState::Initialized { wgpu_state: w1, frame_stats: f1, text_engine: t1 },
                ) => {
                    &&& w1 == w0
                    &&& f1 == f0
                    &&& t1.viewport == (crate::text_engine::Viewport {
                        width: w0.current_size.width,
                        height: w0.current_size.height,
                    })
                    &&& t1.text_buffer.text@ == fps_display_spec(f0.fps_milli as nat)
                    &&& t1.text_buffer.metrics == t0.text_buffer.metrics
                    &&& t1.last_area == Some(
                        crate::text_engine::TextArea {
                            left: OVERLAY_LEFT,
                            top: OVERLAY_TOP,
                            font_size_milli: OVERLAY_FONT_SIZE_MILLI,
                            default_color: Color { r: 100, g: 255, b: 100, a: 255 },
                            bounds: crate::text_engine::default_text_bounds(),
                        },
                    )
                    &&& forall|k: GlyphKey| #[trigger]
                        t1.atlas.glyphs@.contains(k) <==> (t0.atlas.glyphs@.contains(k)
                            || is_glyph_of(
                            k,
                            fps_display_spec(f0.fps_milli as nat),
                            OVERLAY_FONT_SIZE_MILLI,
                        ))
                    &&& forall|k: GlyphKey| #[trigger]
                        t1.atlas.referenced@.contains(k) <==> (t0.atlas.referenced@.contains(k)
                            || is_glyph_of(
                            k,
                            fps_display_spec(f0.fps_milli as nat),
                            OVERLAY_FONT_SIZE_MILLI,
                        ))
                },
                (AppState::Uninitialized, AppState::Uninitialized) => true,
                _ => false,
            }),
            draw matches Some(d) ==> (old(self).state matches AppState::Initialized {
                wgpu_state,
                frame_stats,
                ..
            } && d.resolution == wgpu_state.current_size && d.text@ == fps_display_spec(
                frame_stats.fps_milli as nat,
            ) && d.left == OVERLAY_LEFT && d.top == OVERLAY_TOP && d.font_size_milli
                == OVERLAY_FONT_SIZE_MILLI && d.color == (Color { r: 100, g: 255, b: 100, a: 255 })),
            (draw is Some) == (old(self).state is Initialized),
    {
        match &mut self.state {
            AppState::Initialized { wgpu_state, frame_stats, text_engine } => {
                text_engine.viewport.update(wgpu_state.current_size);
                let text = fps_display(frame_stats.fps_milli);
                let overlay = fps_display(frame_stats.fps_milli);
                let color = Color::rgb(100, 255, 100);
                text_engine.draw_text(
                    text,
                    OVERLAY_LEFT,
                    OVERLAY_TOP,
                    OVERLAY_FONT_SIZE_MILLI,
                    color,
                );
                Some(
                    FrameDraw {
                        resolution: wgpu_state.current_size,
                        text: overlay,
                        left: OVERLAY_LEFT,
                        top: OVERLAY_TOP,
                        font_size_milli: OVERLAY_FONT_SIZE_MILLI,
                        color,
                    },
                )
            },
            AppState::Uninitialized => None,
        }
    }

    /// The second half of the render step, entered with the outcome of
    /// acquiring the next presentable surface image. On success the frame is
    /// complete: the atlas is trimmed exactly once and the statistics count
    /// the frame at clock reading `now_us`. A failure leaves the state
    /// untouched and is classified: an outdated or lost surface asks the host
    /// binary for a reconfigure, a timeout skips the frame, and resource
    /// exhaustion is surfaced as fatal.
    pub fn finish_frame(&mut self, acquired: Result<(), SurfaceError>, now_us: u64) -> (outcome:
        FrameOutcome)
        requires
            old(self).well_formed(),
            old(self).state is Initialized,
            (old(self).state matches AppState::Initialized { frame_stats, .. } ==> now_us
                >= frame_stats.last_frame_time_us && frame_stats.frame_count < u64::MAX),
        ensures
            final(self).well_formed(),
            acquired matches Err(e) ==> *final(self) == *old(self) && outcome == (match surface_error_class(
                e,
            ) {
                SurfaceErrorClass::RecoverableReconfigure => FrameOutcome::Reconfigured,
                SurfaceErrorClass::RecoverableRetry => FrameOutcome::SkippedRetry,
                SurfaceErrorClass::Fatal => FrameOutcome::FatalError(e),
            }),
            acquired is Ok ==> outcome == FrameOutcome::Rendered && (match (
                old(self).state,
                final(self).state,
            ) {
                (
                    AppState::Initialized { wgpu_state: w0, frame_stats: f0, text_engine: t0 },
                    AppState::Initialized { wgpu_state: w1, frame_stats: f1, text_engine: t1 },
                ) => {
                    &&& w1 == w0
                    &&& f1 == f0.updated(now_us)
                    &&& t1.atlas.glyphs@ == t0.atlas.referenced@
                    &&& t1.atlas.referenced@.len() == 0
                    &&& t1.viewport == t0.viewport
                    &&& t1.text_buffer.text@ == t0.text_buffer.text@
                    &&& t1.text_buffer.metrics == t0.text_buffer.metrics
                    &&& t1.last_area == t0.last_area
                },
                _ => false,
            }),
    {
        match acquired {
            Ok(()) => {
                match &mut self.state {
                    AppState::Initialized { frame_stats, text_engine, .. } => {
                        text_engine.atlas.trim();
                        frame_stats.update(now_us);
                    },
                    AppState::Uninitialized => {},
                }
                FrameOutcome::Rendered
            },
            Err(e) => {
                match crate::wgpu_state::classify_surface_error(e) {
                    SurfaceErrorClass::RecoverableReconfigure => FrameOutcome::Reconfigured,
                    SurfaceErrorClass::RecoverableRetry => FrameOutcome::SkippedRetry,
                    SurfaceErrorClass::Fatal => FrameOutcome::FatalError(e),
                }
            },
        }
    }
}

} // verus!

