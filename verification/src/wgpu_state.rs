//! The logical GPU rendering context: the negotiated surface configuration,
//! the current surface size, and the format the render pipeline was built
//! against.
//!
//! The device, queue, surface and pipeline objects themselves live with the
//! host binary; what is kept and reasoned about here is every decision taken
//! over them: which surface format and present mode are negotiated from the
//! platform capabilities, what the surface configuration holds, how a resize
//! rewrites it, and how a per-frame surface-acquisition failure is classified.

use vstd::prelude::*;

verus! {

/// Frames of buffering headroom between the application and the presentation
/// engine.
pub const DESIRED_MAXIMUM_FRAME_LATENCY: u32 = 2;

/// A window or surface size in physical pixels.
#[derive(Clone, Copy, PartialEq, Eq, Structural, Debug)]
pub struct PhysicalSize {
    pub width: u32,
    pub height: u32,
}

/// A surface texture format as the negotiation logic sees it: an opaque
/// platform code plus the one property the logic reads, whether the format's
/// color space is SRGB-encoded.
#[derive(Clone, Copy, PartialEq, Eq, Structural, Debug)]
pub struct SurfaceFormat {
    /// Identifies the platform format; the logic only carries it through.
    pub code: u32,
    /// Whether the format's color space is SRGB-encoded.
    pub srgb: bool,
}

/// How presented frames are paced.
#[derive(Clone, Copy, PartialEq, Eq, Structural, Debug)]
pub enum PresentMode {
    /// Uncapped, tearing-permitted presentation.
    Immediate,
    /// The mandatory vsynced queue mode every platform supports.
    Fifo,
    /// Vsynced, but allowed to tear when a frame is late.
    FifoRelaxed,
    /// Vsynced with replacement of queued frames.
    Mailbox,
}

/// How the surface's alpha channel is composited with the windowing system.
#[derive(Clone, Copy, PartialEq, Eq, Structural, Debug)]
pub enum AlphaMode {
    Auto,
    Opaque,
    PreMultiplied,
    PostMultiplied,
    Inherit,
}

/// The one texture usage the surface is configured for.
#[derive(Clone, Copy, PartialEq, Eq, Structural, Debug)]
pub enum TextureUsage {
    RenderAttachment,
}

/// What the platform reports the surface supports, already lowered to plain
/// values by the host binary.
pub struct SurfaceCapabilities {
    /// Supported formats, in the platform's preference order; never empty.
    pub formats: Vec<SurfaceFormat>,
    /// Supported present modes.
    pub present_modes: Vec<PresentMode>,
    /// Supported alpha modes, in preference order; never empty.
    pub alpha_modes: Vec<AlphaMode>,
}

/// The stored surface configuration.
#[derive(Clone, Copy, PartialEq, Eq, Structural, Debug)]
pub struct SurfaceConfiguration {
    pub usage: TextureUsage,
    pub format: SurfaceFormat,
    pub width: u32,
    pub height: u32,
    pub present_mode: PresentMode,
    pub alpha_mode: AlphaMode,
    pub desired_maximum_frame_latency: u32,
}

/// Why acquiring the next presentable surface image failed.
#[derive(Clone, Copy, PartialEq, Eq, Structural, Debug)]
pub enum SurfaceError {
    /// Acquisition timed out.
    Timeout,
    /// The surface no longer matches the window and must be reconfigured.
    Outdated,
    /// The surface was lost and must be reconfigured.
    Lost,
    /// Resource exhaustion.
    OutOfMemory,
    /// A platform failure outside the documented recoverable conditions.
    Other,
}

/// What the render loop does about a surface-acquisition failure.
#[derive(Clone, Copy, PartialEq, Eq, Structural, Debug)]
pub enum SurfaceErrorClass {
    /// Reconfigure the surface from the stored configuration and retry on the
    /// next frame.
    RecoverableReconfigure,
    /// Skip this frame and retry on the next cycle.
    RecoverableRetry,
    /// Unrecoverable; propagate to the caller of the render step.
    Fatal,
}

/// The class a surface-acquisition failure falls under.
pub open spec fn surface_error_class(e: SurfaceError) -> SurfaceErrorClass {
    match e {
        SurfaceError::Outdated => SurfaceErrorClass::RecoverableReconfigure,
        SurfaceError::Lost => SurfaceErrorClass::RecoverableReconfigure,
        SurfaceError::Timeout => SurfaceErrorClass::RecoverableRetry,
        SurfaceError::OutOfMemory => SurfaceErrorClass::Fatal,
        SurfaceError::Other => SurfaceErrorClass::Fatal,
    }
}

/// Classifies a surface-acquisition failure: an invalid or outdated surface
/// asks for a reconfigure, a timeout for a skipped frame, resource exhaustion
/// is fatal.
pub fn classify_surface_error(e: SurfaceError) -> (c: SurfaceErrorClass)
    ensures
        c == surface_error_class(e),
{
    match e {
        SurfaceError::Outdated => SurfaceErrorClass::RecoverableReconfigure,
        SurfaceError::Lost => SurfaceErrorClass::RecoverableReconfigure,
        SurfaceError::Timeout => SurfaceErrorClass::RecoverableRetry,
        SurfaceError::OutOfMemory => SurfaceErrorClass::Fatal,
        SurfaceError::Other => SurfaceErrorClass::Fatal,
    }
}

/// The first SRGB-encoded format of the list, if any.
pub open spec fn find_srgb(formats: Seq<SurfaceFormat>) -> Option<SurfaceFormat>
    decreases formats.len(),
{
    if formats.len() == 0 {
        Option::None
    } else if formats[0].srgb {
        Option::Some(formats[0])
    } else {
        find_srgb(formats.drop_first())
    }
}

/// The negotiated format: the first SRGB-encoded one, or failing that the
/// platform's first supported format.
pub open spec fn chosen_format(formats: Seq<SurfaceFormat>) -> SurfaceFormat
    recommends
        formats.len() > 0,
{
    match find_srgb(formats) {
        Option::Some(f) => f,
        Option::None => formats[0],
    }
}

/// The negotiated present mode: immediate when supported for latency, else
/// the mandatory vsynced mode.
pub open spec fn chosen_present_mode(modes: Seq<PresentMode>) -> PresentMode {
    if modes.contains(PresentMode::Immediate) {
        PresentMode::Immediate
    } else {
        PresentMode::Fifo
    }
}

/// Picks the first SRGB-encoded format, or the first supported format when
/// none is SRGB-encoded.
pub fn select_surface_format(formats: &Vec<SurfaceFormat>) -> (r: SurfaceFormat)
    requires
        formats@.len() > 0,
    ensures
        r == chosen_format(formats@),
{
    let mut i: usize = 0;
    proof {
        assert(formats@.skip(0) =~= formats@);
    }
    while i < formats.len()
        invariant
            i <= formats@.len(),
            formats@.len() > 0,
            forall|j: int| 0 <= j < i ==> !formats@[j].srgb,
            find_srgb(formats@) == find_srgb(formats@.skip(i as int)),
        decreases formats@.len() - i,
    {
        let f = formats[i];
        if f.srgb {
            proof {
                assert(formats@.skip(i as int)[0] == formats@[i as int]);
            }
            return f;
        }
        proof {
            assert(formats@.skip(i as int).drop_first() =~= formats@.skip(i + 1));
            assert(formats@.skip(i as int)[0] == formats@[i as int]);
        }
        i = i + 1;
    }
    proof {
        assert(formats@.skip(i as int).len() == 0);
    }
    formats[0]
}

/// Picks the immediate present mode when the platform offers it, else the
/// mandatory vsynced mode.
pub fn select_present_mode(modes: &Vec<PresentMode>) -> (r: PresentMode)
    ensures
        r == chosen_present_mode(modes@),
{
    let mut i: usize = 0;
    while i < modes.len()
        invariant
            i <= modes@.len(),
            forall|j: int| 0 <= j < i ==> modes@[j] != PresentMode::Immediate,
        decreases modes@.len() - i,
    {
        if modes[i] == PresentMode::Immediate {
            return PresentMode::Immediate;
        }
        i = i + 1;
    }
    proof {
        assert(forall|j: int| 0 <= j < modes@.len() ==> modes@[j] != PresentMode::Immediate);
    }
    PresentMode::Fifo
}

/// The logical GPU context: stored surface configuration, current surface
/// size, and the color-target format the fixed pipeline was built with.
pub struct WgpuState {
    /// The configuration the surface was last configured with.
    pub config: SurfaceConfiguration,
    /// The last observed physical window size.
    pub current_size: PhysicalSize,
    /// The color-target format of the fixed render pipeline.
    pub pipeline_format: SurfaceFormat,
}

impl WgpuState {
    /// The stored configuration always mirrors the last observed window size,
    /// keeps the fixed usage and buffering depth, and matches the format the
    /// pipeline renders into.
    pub open spec fn well_formed(self) -> bool {
        &&& self.config.width == self.current_size.width
        &&& self.config.height == self.current_size.height
        &&& self.config.usage == TextureUsage::RenderAttachment
        &&& self.config.desired_maximum_frame_latency == DESIRED_MAXIMUM_FRAME_LATENCY
        &&& self.pipeline_format == self.config.format
    }

    /// The context as initialization leaves it for the given capabilities and
    /// window size.
    pub open spec fn initial(caps: SurfaceCapabilities, window_size: PhysicalSize) -> WgpuState
        recommends
            caps.formats@.len() > 0,
            caps.alpha_modes@.len() > 0,
    {
        WgpuState {
            config: SurfaceConfiguration {
                usage: TextureUsage::RenderAttachment,
                format: chosen_format(caps.formats@),
                width: window_size.width,
                height: window_size.height,
                present_mode: chosen_present_mode(caps.present_modes@),
                alpha_mode: caps.alpha_modes@[0],
                desired_maximum_frame_latency: DESIRED_MAXIMUM_FRAME_LATENCY,
            },
            current_size: window_size,
            pipeline_format: chosen_format(caps.formats@),
        }
    }

    /// The context as a resize to `new_size` leaves it: the stored
    /// configuration's extent follows the new size, everything else stays.
    pub open spec fn resized(self, new_size: PhysicalSize) -> WgpuState {
        WgpuState {
            config: SurfaceConfiguration {
                width: new_size.width,
                height: new_size.height,
                ..self.config
            },
            current_size: new_size,
            pipeline_format: self.pipeline_format,
        }
    }

    /// Negotiates the surface configuration from the reported capabilities at
    /// the window's current physical size, and records the pipeline's color
    /// target as that same negotiated format.
    pub fn default(capabilities: &SurfaceCapabilities, window_size: PhysicalSize) -> (s: WgpuState)
        requires
            capabilities.formats@.len() > 0,
            capabilities.alpha_modes@.len() > 0,
        ensures
            s == Self::initial(*capabilities, window_size),
            s.well_formed(),
    {
        let format = select_surface_format(&capabilities.formats);
        let present_mode = select_present_mode(&capabilities.present_modes);
        let config = SurfaceConfiguration {
            usage: TextureUsage::RenderAttachment,
            format,
            width: window_size.width,
            height: window_size.height,
            present_mode,
            alpha_mode: capabilities.alpha_modes[0],
            desired_maximum_frame_latency: DESIRED_MAXIMUM_FRAME_LATENCY,
        };
        WgpuState { config, current_size: window_size, pipeline_format: format }
    }

    /// Stores a new physical size and rewrites the configuration's extent;
    /// the caller reconfigures the actual surface from the stored
    /// configuration. Tolerates zero in either dimension.
    pub fn resize(&mut self, new_size: PhysicalSize)
        ensures
            *final(self) == old(self).resized(new_size),
            old(self).well_formed() ==> final(self).well_formed(),
    {
        self.current_size = new_size;
        self.config.width = new_size.width;
        self.config.height = new_size.height;
    }
}

/// After a resize to any size, the stored configuration's extent equals that
/// size exactly, whatever it held before, and the context stays well formed;
/// resizing never changes the negotiated format, present mode, alpha mode,
/// usage or buffering depth.
pub proof fn lemma_resize_sets_extent(s: WgpuState, new_size: PhysicalSize)
    ensures
        s.resized(new_size).config.width == new_size.width,
        s.resized(new_size).config.height == new_size.height,
        s.resized(new_size).current_size == new_size,
        s.resized(new_size).config.format == s.config.format,
        s.resized(new_size).config.present_mode == s.config.present_mode,
        s.resized(new_size).config.alpha_mode == s.config.alpha_mode,
        s.resized(new_size).config.usage == s.config.usage,
        s.resized(new_size).config.desired_maximum_frame_latency
            == s.config.desired_maximum_frame_latency,
        s.resized(new_size).pipeline_format == s.pipeline_format,
        s.well_formed() ==> s.resized(new_size).well_formed(),
{
}

/// Two successive resizes leave the configuration exactly at the second
/// size: the intermediate size is never reflected in the final state.
pub proof fn lemma_resize_round_trip(s: WgpuState, first: PhysicalSize, second: PhysicalSize)
    ensures
        s.resized(first).resized(second) == s.resized(second),
{
}

/// An outdated or lost surface is classified as recoverable by reconfigure:
/// the stored configuration is kept, the host binary reconfigures from it,
/// and the next frame's acquisition proceeds normally.
pub proof fn lemma_outdated_is_recoverable()
    ensures
        surface_error_class(SurfaceError::Outdated)
            == SurfaceErrorClass::RecoverableReconfigure,
        surface_error_class(SurfaceError::Lost) == SurfaceErrorClass::RecoverableReconfigure,
        surface_error_class(SurfaceError::Timeout) == SurfaceErrorClass::RecoverableRetry,
        surface_error_class(SurfaceError::OutOfMemory) == SurfaceErrorClass::Fatal,
{
}

} // verus!
