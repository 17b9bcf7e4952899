//! Formats and the render-target configuration shared by all descriptors.

use vstd::prelude::*;

verus! {

/// Pixel formats that the descriptors of this crate can name.
#[derive(Clone, Copy, Debug, PartialEq, Eq, Structural)]
pub enum TextureFormat {
    /// Four normalized 8-bit channels, no colour management.
    Rgba8Unorm,
    /// Four normalized 8-bit channels, read and written through the sRGB curve.
    Rgba8UnormSrgb,
    /// As `Rgba8Unorm` with blue and red swapped; common for surfaces.
    Bgra8Unorm,
    /// As `Rgba8UnormSrgb` with blue and red swapped.
    Bgra8UnormSrgb,
    /// One 32-bit depth channel.
    Depth32Float,
}

impl TextureFormat {
    /// Whether the format is colour-managed.
    pub open spec fn is_srgb(self) -> bool {
        self == TextureFormat::Rgba8UnormSrgb || self == TextureFormat::Bgra8UnormSrgb
    }

    /// Whether a texture of this format may be bound as a writable storage
    /// texture. Colour-managed and depth formats may not.
    pub open spec fn storage_capable(self) -> bool {
        self == TextureFormat::Rgba8Unorm
    }

    /// Executable form of [`TextureFormat::storage_capable`].
    pub fn is_storage_capable(&self) -> (r: bool)
        ensures
            r == self.storage_capable(),
    {
        match self {
            TextureFormat::Rgba8Unorm => true,
            _ => false,
        }
    }
}

/// A colour-managed format is never storage capable: such formats are for
/// textures that are sampled only.
pub proof fn lemma_srgb_not_storage_capable(format: TextureFormat)
    requires
        format.is_srgb(),
    ensures
        !format.storage_capable(),
{
}

/// The one storage format of layered colour textures: normalized 8-bit RGBA
/// without colour management, so that the same texture may also be bound as
/// storage.
pub const TEXTURE_FORMAT: TextureFormat = TextureFormat::Rgba8Unorm;

/// Bytes of one pixel in [`TEXTURE_FORMAT`].
pub const BYTES_PER_PIXEL: u32 = 4;

/// Size and format of the image that frames are rendered into. It changes
/// only when the surface is resized.
#[derive(Clone, Copy, Debug, PartialEq, Eq, Structural)]
pub struct RenderTargetConfig {
    pub width: u32,
    pub height: u32,
    pub format: TextureFormat,
}

} // verus!
