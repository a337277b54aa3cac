//! The presentable surface as the frame logic sees it: its size, its
//! configuration, and the ways in which acquiring its next image can fail.

use vstd::prelude::*;

verus! {

/// A size in physical pixels.
#[derive(Clone, Copy, Debug, PartialEq, Eq, Structural)]
pub struct Size {
    pub width: u32,
    pub height: u32,
}

impl Size {
    /// Neither side is zero.
    pub open spec fn spec_is_drawable(&self) -> bool {
        self.width > 0 && self.height > 0
    }

    /// Whether a surface of this size can be configured. A minimised window
    /// reports a size with a zero side.
    #[verifier::when_used_as_spec(spec_is_drawable)]
    pub fn is_drawable(&self) -> (drawable: bool)
        ensures
            drawable == self.spec_is_drawable(),
    {
        self.width > 0 && self.height > 0
    }
}

/// A texture format, named by the code under which the graphics backend lists it.
#[derive(Clone, Copy, Debug, PartialEq, Eq, Structural)]
pub struct SurfaceFormat {
    pub code: u32,
}

/// When a finished frame is shown.
#[derive(Clone, Copy, Debug, PartialEq, Eq, Structural)]
pub enum PresentMode {
    /// Frames queue up and are shown one per refresh, so that a call for
    /// the next image waits for the previous frame.
    Fifo,
    /// Frames are shown at once.
    Immediate,
    /// The newest frame replaces a waiting one.
    Mailbox,
}

/// What a surface is configured with.
#[derive(Clone, Copy, Debug, PartialEq, Eq, Structural)]
pub struct SurfaceConfig {
    pub width: u32,
    pub height: u32,
    pub format: SurfaceFormat,
    pub present_mode: PresentMode,
}

impl SurfaceConfig {
    /// The size that the configuration asks for.
    pub open spec fn size(&self) -> Size {
        Size { width: self.width, height: self.height }
    }

    /// The configuration after the surface took the size `size`.
    pub open spec fn resized(self, size: Size) -> SurfaceConfig {
        SurfaceConfig { width: size.width, height: size.height, ..self }
    }

    /// The configuration of the given size and format whose frames queue up.
    pub open spec fn queued(size: Size, format: SurfaceFormat) -> SurfaceConfig {
        SurfaceConfig {
            width: size.width,
            height: size.height,
            format,
            present_mode: PresentMode::Fifo,
        }
    }

    /// A configuration of the given size and format whose frames queue up.
    pub fn new(size: Size, format: SurfaceFormat) -> (config: Self)
        ensures
            config == SurfaceConfig::queued(size, format),
    {
        SurfaceConfig {
            width: size.width,
            height: size.height,
            format,
            present_mode: PresentMode::Fifo,
        }
    }
}

/// Why the next image of the surface could not be had.
#[derive(Clone, Copy, Debug, PartialEq, Eq, Structural)]
pub enum SurfaceError {
    /// The image did not arrive in time.
    Timeout,
    /// The surface changed under the configuration.
    Outdated,
    /// The surface is gone and has to be configured again.
    Lost,
    /// No memory is left for a frame.
    OutOfMemory,
}

/// Why the renderer could not be set up.
#[derive(Clone, Copy, Debug, PartialEq, Eq, Structural)]
pub enum InitError {
    /// The surface supports no format with the chosen adapter.
    NoSurfaceFormat,
    /// A texture that drawing selects by name was not loaded.
    MissingTexture,
    /// The model has no mesh to draw.
    EmptyModel,
    /// The first mesh names a material that the model does not have.
    MissingMaterial,
}

/// Picks the format to configure the surface with: the one that the
/// surface lists first. Fails when it lists none.
pub fn negotiate_format(supported: &Vec<SurfaceFormat>) -> (chosen: Result<
    SurfaceFormat,
    InitError,
>)
    ensures
        supported@.len() > 0 ==> chosen == Ok::<SurfaceFormat, InitError>(supported@[0]),
        supported@.len() == 0 ==> chosen == Err::<SurfaceFormat, InitError>(
            InitError::NoSurfaceFormat,
        ),
{
    if supported.len() == 0 {
        Err(InitError::NoSurfaceFormat)
    } else {
        Ok(supported[0])
    }
}

} // verus!
