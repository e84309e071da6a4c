//! The presentable surface's configuration and its square-locked resizing.

use vstd::prelude::*;

verus! {

/// `wgpu::TextureFormat`, the pixel format of a surface. The library never
/// looks inside a format: it is chosen by the GPU backend and carried through.
#[verifier::external_type_specification]
#[verifier::external_body]
pub struct ExTextureFormat(wgpu::TextureFormat);

/// A size in physical pixels.
#[derive(Clone, Copy, Debug, PartialEq, Eq, Structural)]
pub struct PhysicalSize {
    pub width: u32,
    pub height: u32,
}

/// How the presentation engine paces frames.
#[derive(Clone, Copy, Debug, PartialEq, Eq, Structural)]
pub enum PresentMode {
    Immediate,
    Mailbox,
    Fifo,
}

/// What a surface is configured with.
#[derive(Clone, Copy, Debug, PartialEq, Eq)]
pub struct SurfaceConfig {
    pub width: u32,
    pub height: u32,
    pub format: wgpu::TextureFormat,
    pub present_mode: PresentMode,
}

/// The side of the largest square that fits inside a `width` x `height` box.
pub open spec fn square_side(width: int, height: int) -> int {
    if width > height {
        height
    } else {
        width
    }
}

impl PhysicalSize {
    pub fn new(width: u32, height: u32) -> (size: PhysicalSize)
        ensures
            size.width == width,
            size.height == height,
    {
        PhysicalSize { width, height }
    }

    /// The size with its larger dimension shrunk to the smaller one.
    pub open spec fn squared(self) -> PhysicalSize {
        let side = square_side(self.width as int, self.height as int) as u32;
        PhysicalSize { width: side, height: side }
    }

    /// Whether a surface can be configured at this size.
    pub open spec fn presentable(self) -> bool {
        self.width > 0 && self.height > 0
    }

    /// Corrects the size to the fixed 1:1 aspect ratio by shrinking
    /// whichever dimension is larger.
    pub fn fit_square(self) -> (fitted: PhysicalSize)
        ensures
            fitted == self.squared(),
    {
        if self.width > self.height {
            PhysicalSize { width: self.height, height: self.height }
        } else {
            PhysicalSize { width: self.width, height: self.width }
        }
    }
}

impl SurfaceConfig {
    /// The configured size.
    pub open spec fn size(self) -> PhysicalSize {
        PhysicalSize { width: self.width, height: self.height }
    }

    /// The configuration that a resize request to `requested` leaves behind:
    /// the squared size where that is presentable, else the configuration as
    /// it was.
    pub open spec fn reconfigured(self, requested: PhysicalSize) -> SurfaceConfig {
        if requested.squared().presentable() {
            SurfaceConfig {
                width: requested.squared().width,
                height: requested.squared().height,
                ..self
            }
        } else {
            self
        }
    }

    /// Applies a resize request. Returns whether the configuration was
    /// replaced, in which case it has to be applied to the surface again.
    pub fn reconfigure(&mut self, requested: PhysicalSize) -> (replaced: bool)
        ensures
            *final(self) == old(self).reconfigured(requested),
            replaced == requested.squared().presentable(),
    {
        let fitted = requested.fit_square();
        if fitted.width > 0 && fitted.height > 0 {
            self.width = fitted.width;
            self.height = fitted.height;
            true
        } else {
            false
        }
    }
}

/// A request with both dimensions positive always takes effect and leaves
/// a square: width and height are equal and positive, and neither exceeds
/// what was asked for. Format and presentation mode stay as they were.
pub proof fn lemma_reconfigure_squares(config: SurfaceConfig, requested: PhysicalSize)
    requires
        requested.width > 0,
        requested.height > 0,
    ensures
        config.reconfigured(requested).width == config.reconfigured(requested).height,
        config.reconfigured(requested).size().presentable(),
        config.reconfigured(requested).width <= requested.width,
        config.reconfigured(requested).height <= requested.height,
        config.reconfigured(requested).format == config.format,
        config.reconfigured(requested).present_mode == config.present_mode,
{
}

/// The square that a request leaves is the largest one inside the
/// requested size: any other square that fits is no larger.
pub proof fn lemma_reconfigure_is_maximal(
    config: SurfaceConfig,
    requested: PhysicalSize,
    other: PhysicalSize,
)
    requires
        requested.width > 0,
        requested.height > 0,
        other.width == other.height,
        other.width <= requested.width,
        other.height <= requested.height,
    ensures
        other.width <= config.reconfigured(requested).width,
        other.height <= config.reconfigured(requested).height,
{
}

/// A request with a dimension of zero changes nothing.
pub proof fn lemma_reconfigure_zero_is_noop(config: SurfaceConfig, requested: PhysicalSize)
    requires
        requested.width == 0 || requested.height == 0,
    ensures
        config.reconfigured(requested) == config,
{
}

/// Resizing to a size that is already square and presentable configures
/// exactly that size, so resizing to the size one has changes nothing.
pub proof fn lemma_reconfigure_square_is_exact(config: SurfaceConfig, requested: PhysicalSize)
    requires
        requested.width == requested.height,
        requested.width > 0,
    ensures
        config.reconfigured(requested).size() == requested,
        config.size() == requested ==> config.reconfigured(requested) == config,
{
}

} // verus!
