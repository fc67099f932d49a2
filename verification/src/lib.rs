//! A minimal real-time rendering scaffold: a GPU surface lifecycle, a
//! continuous frame loop with failure recovery, a glyph-atlas text overlay,
//! and a windowed frames-per-second estimator.
//!
//! The library holds the decision logic of the engine: surface-format and
//! present-mode negotiation, surface (re)configuration, per-frame render-step
//! bookkeeping, glyph-atlas accounting, and frame statistics. The host binary
//! owns the window, the GPU device and the glyph rasterizer, and drives this
//! logic from the platform event loop, performing each action the logic asks
//! for and handing back plain values (sizes, capabilities, clock readings,
//! acquisition outcomes).

pub mod app;
pub mod frame_stats;
pub mod text_engine;
pub mod wgpu_state;

pub use app::App;
pub use frame_stats::FrameStats;
pub use text_engine::TextEngine;
pub use wgpu_state::WgpuState;
