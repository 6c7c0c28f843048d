//! The configuration of a surface, and how a negotiation settles it.

use vstd::prelude::*;
use crate::error::BuildError;

verus! {

/// The usage of a surface whose textures are rendered to: the bit that
/// `wgpu::TextureUsages::RENDER_ATTACHMENT` holds.
pub const RENDER_ATTACHMENT: u32 = 16;

/// The size of a window in physical pixels.
#[derive(Clone, Copy, Debug, PartialEq, Eq, Structural)]
pub struct Dimension {
    pub horizontal: u32,
    pub vertical: u32,
}

impl Dimension {
    /// Both sides are at least one pixel long.
    pub open spec fn spec_has_area(self) -> bool {
        self.horizontal > 0 && self.vertical > 0
    }

    #[verifier::when_used_as_spec(spec_has_area)]
    pub fn has_area(self) -> (r: bool)
        ensures
            r == self.spec_has_area(),
    {
        self.horizontal > 0 && self.vertical > 0
    }
}

/// The terms under which a surface presents: what `wgpu::SurfaceConfiguration`
/// holds, with the usage as its bits.
#[derive(Clone, Copy, Debug, PartialEq, Eq)]
pub struct SurfaceConfiguration {
    pub usage: u32,
    pub format: wgpu::TextureFormat,
    pub width: u32,
    pub height: u32,
    pub present_mode: wgpu::PresentMode,
    pub alpha_mode: wgpu::CompositeAlphaMode,
}

/// The configuration that a negotiation settles on for a surface of the pixel
/// format `format` in a window of the size `size`: the surface is rendered to,
/// is as large as the window, and presents in the modes that were asked for.
pub open spec fn configuration_for(
    format: wgpu::TextureFormat,
    size: Dimension,
    present_mode: wgpu::PresentMode,
    alpha_mode: wgpu::CompositeAlphaMode,
) -> SurfaceConfiguration {
    SurfaceConfiguration {
        usage: RENDER_ATTACHMENT,
        format,
        width: size.horizontal,
        height: size.vertical,
        present_mode,
        alpha_mode,
    }
}

impl SurfaceConfiguration {
    /// A surface can be given this configuration: it is rendered to, and
    /// neither side is empty.
    pub open spec fn wf(self) -> bool {
        &&& self.usage == RENDER_ATTACHMENT
        &&& self.width > 0
        &&& self.height > 0
    }

    /// The size that the configuration gives the surface.
    pub open spec fn spec_dimension(self) -> Dimension {
        Dimension { horizontal: self.width, vertical: self.height }
    }

    /// Assembles the configuration of a surface from the negotiated format,
    /// the size that the window has now, and the modes that the caller asked
    /// for.
    pub fn new(
        format: wgpu::TextureFormat,
        size: Dimension,
        present_mode: wgpu::PresentMode,
        alpha_mode: wgpu::CompositeAlphaMode,
    ) -> (r: Self)
        ensures
            r == configuration_for(format, size, present_mode, alpha_mode),
            r.wf() <==> size.has_area(),
    {
        SurfaceConfiguration {
            usage: RENDER_ATTACHMENT,
            format,
            width: size.horizontal,
            height: size.vertical,
            present_mode,
            alpha_mode,
        }
    }

    #[verifier::when_used_as_spec(spec_dimension)]
    pub fn dimension(self) -> (r: Dimension)
        ensures
            r == self.spec_dimension(),
    {
        Dimension { horizontal: self.width, vertical: self.height }
    }

    /// Tells whether a surface can be given this configuration.
    pub fn is_well_formed(self) -> (r: bool)
        ensures
            r == self.wf(),
    {
        self.usage == RENDER_ATTACHMENT && self.width > 0 && self.height > 0
    }
}

/// The format that a negotiation takes from the formats a surface supports,
/// listed in the driver's order of preference: the first one, and a failure
/// where there is none.
pub open spec fn preferred_format(formats: Seq<wgpu::TextureFormat>) -> Result<
    wgpu::TextureFormat,
    BuildError,
> {
    if formats.len() == 0 {
        Err(BuildError::NoSupportedSurfaceFormat)
    } else {
        Ok(formats[0])
    }
}

/// Selects the pixel format of the surface among those it supports.
pub fn select_format(formats: &[wgpu::TextureFormat]) -> (r: Result<
    wgpu::TextureFormat,
    BuildError,
>)
    ensures
        r == preferred_format(formats@),
        formats@.len() > 0 ==> r == Ok::<wgpu::TextureFormat, BuildError>(formats@[0]),
        formats@.len() == 0 ==> r == Err::<wgpu::TextureFormat, BuildError>(
            BuildError::NoSupportedSurfaceFormat,
        ),
{
    if formats.len() == 0 {
        Err(BuildError::NoSupportedSurfaceFormat)
    } else {
        Ok(formats[0])
    }
}

} // verus!
