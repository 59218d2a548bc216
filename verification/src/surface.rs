//! The choice of the window surface's pixel format.

use vstd::prelude::*;

verus! {

/// `wgpu::TextureFormat`, carried through as an opaque value.
#[verifier::external_type_specification]
#[verifier::external_body]
pub struct ExTextureFormat(wgpu::TextureFormat);

/// What `wgpu::TextureFormat::is_srgb` returns for a format.
pub uninterp spec fn format_is_srgb(format: wgpu::TextureFormat) -> bool;

/// What `wgpu::TextureFormat::has_color_aspect` returns for a format.
pub uninterp spec fn format_has_color_aspect(format: wgpu::TextureFormat) -> bool;

/// What `wgpu::TextureFormat::components` returns for a format.
pub uninterp spec fn format_components(format: wgpu::TextureFormat) -> u8;

/// Calls `wgpu::TextureFormat::is_srgb`, which tells whether the format
/// stores its colours sRGB-encoded. The method only inspects the format, so
/// the contract names its result and claims nothing more.
#[verifier::external_body]
fn is_srgb(format: &wgpu::TextureFormat) -> (r: bool)
    ensures
        r == format_is_srgb(*format),
{
    format.is_srgb()
}

/// Calls `wgpu::TextureFormat::has_color_aspect`, which tells whether the
/// format is a colour format rather than a depth or stencil one. The contract
/// names its result and claims nothing more.
#[verifier::external_body]
fn has_color_aspect(format: &wgpu::TextureFormat) -> (r: bool)
    ensures
        r == format_has_color_aspect(*format),
{
    format.has_color_aspect()
}

/// Calls `wgpu::TextureFormat::components`, the number of components of a
/// texel. The contract names its result and claims nothing more.
#[verifier::external_body]
fn components(format: &wgpu::TextureFormat) -> (r: u8)
    ensures
        r == format_components(*format),
{
    format.components()
}

/// The number of components that the presented image has: red, green, blue
/// and alpha.
pub const SURFACE_COMPONENTS: u8 = 4;

/// Whether a format with these properties is one the presentation wants:
/// sRGB-encoded, a colour format, and of four components.
pub open spec fn spec_is_preferred(srgb: bool, color: bool, components: u8) -> bool {
    srgb && color && components == SURFACE_COMPONENTS
}

/// Whether a format is one the presentation wants.
pub open spec fn preferred(format: wgpu::TextureFormat) -> bool {
    spec_is_preferred(
        format_is_srgb(format),
        format_has_color_aspect(format),
        format_components(format),
    )
}

/// Decides from a format's properties whether the presentation wants it.
pub fn is_preferred(srgb: bool, color: bool, components: u8) -> (r: bool)
    ensures
        r == spec_is_preferred(srgb, color, components),
{
    srgb && color && components == SURFACE_COMPONENTS
}

/// Picks the format of the window surface among those that the surface
/// offers, in the order in which it offers them: the first that is
/// sRGB-encoded, has a colour aspect and four components; the first of all
/// where there is no such format.
pub fn choose_surface_format(formats: &Vec<wgpu::TextureFormat>) -> (index: usize)
    requires
        formats.len() > 0,
    ensures
        index < formats.len(),
        forall|j: int| 0 <= j < index ==> !preferred(#[trigger] formats[j]),
        preferred(formats[index as int]) || (index == 0 && forall|j: int|
            0 <= j < formats.len() ==> !preferred(#[trigger] formats[j])),
{
    let mut i: usize = 0;
    while i < formats.len()
        invariant
            i <= formats.len(),
            forall|j: int| 0 <= j < i ==> !preferred(#[trigger] formats[j]),
        decreases formats.len() - i,
    {
        let format = &formats[i];
        if is_preferred(is_srgb(format), has_color_aspect(format), components(format)) {
            return i;
        }
        i += 1;
    }
    0
}

} // verus!
