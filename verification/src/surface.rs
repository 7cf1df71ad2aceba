//! The presentable surface and its configuration.

use vstd::prelude::*;

verus! {

/// The smallest width or height a surface may be configured with.
pub const MIN_EXTENT: u32 = 1;

/// Pixel formats a surface may offer.
#[derive(Clone, Copy, Debug, PartialEq, Eq, Structural)]
pub enum TextureFormat {
    Bgra8Unorm,
    Bgra8UnormSrgb,
    Rgba8Snorm,
    Rgba8Unorm,
    Rgba8UnormSrgb,
    Rgb10a2Unorm,
    Rgba16Float,
    Rgba16Snorm,
    Rgba16Unorm,
    /// A format without a name here, by its position in the list of
    /// formats that the surface reported.
    Other(u32),
}

/// How finished frames are handed to the display.
#[derive(Clone, Copy, Debug, PartialEq, Eq, Structural)]
pub enum PresentMode {
    AutoVsync,
    AutoNoVsync,
    Fifo,
    FifoRelaxed,
    Immediate,
    Mailbox,
}

/// What a surface supports on a given adapter, each list in the adapter's
/// order of preference.
#[derive(Clone, Debug)]
pub struct SurfaceCapabilities {
    pub formats: Vec<TextureFormat>,
    pub present_modes: Vec<PresentMode>,
}

/// The configuration that is applied to the device for a surface.
#[derive(Clone, Copy, Debug, PartialEq, Eq, Structural)]
pub struct SurfaceConfig {
    pub format: TextureFormat,
    pub width: u32,
    pub height: u32,
    pub present_mode: PresentMode,
}

/// The extent that is configured when the window reports `requested`.
pub open spec fn clamped_extent(requested: u32) -> u32 {
    if requested < MIN_EXTENT {
        MIN_EXTENT
    } else {
        requested
    }
}

/// Whether a surface can be presented to on its adapter: it offers a format
/// and a presentation mode.
pub open spec fn presentable(caps: SurfaceCapabilities) -> bool {
    caps.formats@.len() > 0 && caps.present_modes@.len() > 0
}

/// The configuration a surface starts with: the adapter's preferred format
/// and presentation mode at the clamped size.
pub open spec fn default_config(
    formats: Seq<TextureFormat>,
    present_modes: Seq<PresentMode>,
    width: u32,
    height: u32,
) -> SurfaceConfig
    recommends
        formats.len() > 0,
        present_modes.len() > 0,
{
    SurfaceConfig {
        format: formats[0],
        width: clamped_extent(width),
        height: clamped_extent(height),
        present_mode: present_modes[0],
    }
}

/// The configuration after the window has reported a new size: only the
/// extent changes.
pub open spec fn resized(config: SurfaceConfig, width: u32, height: u32) -> SurfaceConfig {
    SurfaceConfig {
        format: config.format,
        width: clamped_extent(width),
        height: clamped_extent(height),
        present_mode: config.present_mode,
    }
}

/// Raises a reported extent to the smallest one a surface accepts.
pub fn clamp_extent(requested: u32) -> (extent: u32)
    ensures
        extent == clamped_extent(requested),
        extent >= MIN_EXTENT,
{
    if requested < MIN_EXTENT {
        MIN_EXTENT
    } else {
        requested
    }
}

impl SurfaceConfig {
    /// A configuration can be applied only if neither extent is zero.
    pub open spec fn valid(self) -> bool {
        self.width >= MIN_EXTENT && self.height >= MIN_EXTENT
    }
}

/// A surface bound to a window, with the configuration last applied to it.
#[derive(Clone, Copy, Debug)]
pub struct SurfaceState {
    config: SurfaceConfig,
}

impl SurfaceState {
    #[verifier::type_invariant]
    spec fn extent_is_positive(self) -> bool {
        self.config.valid()
    }

    /// The configuration last applied.
    pub closed spec fn view(self) -> SurfaceConfig {
        self.config
    }

    /// Binds a surface: takes the adapter's preferred format and presentation
    /// mode and the window's size, clamped. The caller applies the
    /// configuration returned by [`SurfaceState::config`] to the device.
    ///
    /// The surface has to be one that the adapter can present to.
    pub fn create(caps: &SurfaceCapabilities, width: u32, height: u32) -> (state: SurfaceState)
        requires
            presentable(*caps),
        ensures
            state@ == default_config(caps.formats@, caps.present_modes@, width, height),
            state@.valid(),
    {
        SurfaceState {
            config: SurfaceConfig {
                format: caps.formats[0],
                width: clamp_extent(width),
                height: clamp_extent(height),
                present_mode: caps.present_modes[0],
            },
        }
    }

    /// The configuration last applied; its extent is never zero.
    pub fn config(&self) -> (config: SurfaceConfig)
        ensures
            config == self@,
            config.valid(),
    {
        proof {
            use_type_invariant(self);
        }
        self.config
    }

    /// Takes over a new window size and returns the configuration that the
    /// caller applies to the device again. Format and presentation mode stay.
    pub fn resize(&mut self, width: u32, height: u32) -> (applied: SurfaceConfig)
        ensures
            final(self)@ == resized(old(self)@, width, height),
            applied == final(self)@,
            applied.valid(),
    {
        let applied = SurfaceConfig {
            format: self.config.format,
            width: clamp_extent(width),
            height: clamp_extent(height),
            present_mode: self.config.present_mode,
        };
        self.config = applied;
        applied
    }
}

/// A resize never leaves an extent of zero, whatever the window reports.
pub proof fn resize_clamps(config: SurfaceConfig, width: u32, height: u32)
    ensures
        resized(config, width, height).valid(),
        resized(config, 0, 0).width == 1,
        resized(config, 0, 0).height == 1,
        width >= 1 ==> resized(config, width, height).width == width,
        height >= 1 ==> resized(config, width, height).height == height,
{
}

/// Resizing twice to the same size gives what resizing once gives, and
/// resizing a valid configuration to its own size changes nothing.
pub proof fn resize_idempotent(config: SurfaceConfig, width: u32, height: u32)
    ensures
        resized(resized(config, width, height), width, height) == resized(config, width, height),
        config.valid() ==> resized(config, config.width, config.height) == config,
{
}

} // verus!
