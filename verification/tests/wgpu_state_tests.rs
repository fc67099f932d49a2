use ferrite_engine::wgpu_state::{
    classify_surface_error, select_present_mode, select_surface_format, AlphaMode, PhysicalSize,
    PresentMode, SurfaceCapabilities, SurfaceError, SurfaceErrorClass, SurfaceFormat,
    TextureUsage, WgpuState,
};

fn caps(formats: Vec<SurfaceFormat>, present_modes: Vec<PresentMode>) -> SurfaceCapabilities {
    SurfaceCapabilities { formats, present_modes, alpha_modes: vec![AlphaMode::Opaque] }
}

#[test]
fn format_prefers_first_srgb() {
    let formats = vec![
        SurfaceFormat { code: 10, srgb: false },
        SurfaceFormat { code: 20, srgb: true },
        SurfaceFormat { code: 30, srgb: true },
    ];
    let picked = select_surface_format(&formats);
    assert_eq!(picked, SurfaceFormat { code: 20, srgb: true });
}

#[test]
fn format_falls_back_to_first_supported() {
    let formats = vec![
        SurfaceFormat { code: 10, srgb: false },
        SurfaceFormat { code: 20, srgb: false },
    ];
    let picked = select_surface_format(&formats);
    assert_eq!(picked, SurfaceFormat { code: 10, srgb: false });
}

#[test]
fn present_mode_prefers_immediate() {
    let modes = vec![PresentMode::Fifo, PresentMode::Mailbox, PresentMode::Immediate];
    assert_eq!(select_present_mode(&modes), PresentMode::Immediate);
}

#[test]
fn present_mode_falls_back_to_fifo() {
    let modes = vec![PresentMode::Fifo, PresentMode::Mailbox];
    assert_eq!(select_present_mode(&modes), PresentMode::Fifo);
    let none: Vec<PresentMode> = vec![];
    assert_eq!(select_present_mode(&none), PresentMode::Fifo);
}

#[test]
fn default_configures_at_window_size() {
    let c = caps(
        vec![SurfaceFormat { code: 1, srgb: false }, SurfaceFormat { code: 2, srgb: true }],
        vec![PresentMode::Fifo],
    );
    let s = WgpuState::default(&c, PhysicalSize { width: 800, height: 600 });
    assert_eq!(s.config.width, 800);
    assert_eq!(s.config.height, 600);
    assert_eq!(s.config.format, SurfaceFormat { code: 2, srgb: true });
    assert_eq!(s.config.present_mode, PresentMode::Fifo);
    assert_eq!(s.config.alpha_mode, AlphaMode::Opaque);
    assert_eq!(s.config.usage, TextureUsage::RenderAttachment);
    assert_eq!(s.config.desired_maximum_frame_latency, 2);
    assert_eq!(s.current_size, PhysicalSize { width: 800, height: 600 });
    // the fixed pipeline's color target is the negotiated surface format
    assert_eq!(s.pipeline_format, s.config.format);
}

#[test]
fn resize_updates_stored_configuration() {
    let c = caps(vec![SurfaceFormat { code: 2, srgb: true }], vec![PresentMode::Fifo]);
    let mut s = WgpuState::default(&c, PhysicalSize { width: 800, height: 600 });
    s.resize(PhysicalSize { width: 1024, height: 768 });
    assert_eq!(s.config.width, 1024);
    assert_eq!(s.config.height, 768);
    assert_eq!(s.current_size, PhysicalSize { width: 1024, height: 768 });
    assert_eq!(s.config.format, SurfaceFormat { code: 2, srgb: true });
}

#[test]
fn resize_round_trip_keeps_only_second_size() {
    let c = caps(vec![SurfaceFormat { code: 2, srgb: true }], vec![PresentMode::Fifo]);
    let mut s = WgpuState::default(&c, PhysicalSize { width: 800, height: 600 });
    s.resize(PhysicalSize { width: 640, height: 480 });
    s.resize(PhysicalSize { width: 1920, height: 1080 });
    assert_eq!(s.config.width, 1920);
    assert_eq!(s.config.height, 1080);
    assert_eq!(s.current_size, PhysicalSize { width: 1920, height: 1080 });
}

#[test]
fn resize_tolerates_zero_area() {
    let c = caps(vec![SurfaceFormat { code: 2, srgb: true }], vec![PresentMode::Fifo]);
    let mut s = WgpuState::default(&c, PhysicalSize { width: 800, height: 600 });
    s.resize(PhysicalSize { width: 0, height: 0 });
    assert_eq!(s.config.width, 0);
    assert_eq!(s.config.height, 0);
}

#[test]
fn error_classification_taxonomy() {
    assert_eq!(
        classify_surface_error(SurfaceError::Outdated),
        SurfaceErrorClass::RecoverableReconfigure
    );
    assert_eq!(
        classify_surface_error(SurfaceError::Lost),
        SurfaceErrorClass::RecoverableReconfigure
    );
    assert_eq!(classify_surface_error(SurfaceError::Timeout), SurfaceErrorClass::RecoverableRetry);
    assert_eq!(classify_surface_error(SurfaceError::OutOfMemory), SurfaceErrorClass::Fatal);
    assert_eq!(classify_surface_error(SurfaceError::Other), SurfaceErrorClass::Fatal);
}
