//! The description of the off-screen texture that frames are rendered
//! into before they are read back for export.

use crate::scene::SceneInfo;
use vstd::prelude::*;

verus! {

/// The pixel format of the render target: four-byte RGBA pixels in sRGB
/// space.
#[derive(Clone, Copy, Debug, PartialEq, Eq)]
pub enum TextureFormat {
    Rgba8UnormSrgb,
}

/// The dimensionality of the render target.
#[derive(Clone, Copy, Debug, PartialEq, Eq)]
pub enum TextureDimension {
    D2,
}

/// The ways the renderer may use the render-target texture.
#[derive(Clone, Copy, Debug)]
pub struct TextureUsage {
    pub copy_src: bool,
    pub copy_dst: bool,
    pub texture_binding: bool,
    pub render_attachment: bool,
}

/// A complete description of the off-screen texture that the renderer
/// draws into.
#[derive(Clone, Copy, Debug)]
pub struct RenderTargetDescriptor {
    pub width: u32,
    pub height: u32,
    pub depth_or_array_layers: u32,
    pub dimension: TextureDimension,
    pub format: TextureFormat,
    pub mip_level_count: u32,
    pub sample_count: u32,
    pub usage: TextureUsage,
}

impl TextureFormat {
    /// How many bytes one pixel occupies.
    pub fn bytes_per_pixel(&self) -> (n: u32)
        ensures
            n == 4,
    {
        match self {
            TextureFormat::Rgba8UnormSrgb => 4,
        }
    }
}

/// Builds the description of the render-target texture for a scene: a
/// two-dimensional, single-sample RGBA texture of the scene's exact
/// dimensions, without mip-maps, usable as a render attachment, as a
/// texture binding, and as both source and destination of copies.
pub fn render_target_descriptor(scene: &SceneInfo) -> (descriptor: RenderTargetDescriptor)
    ensures
        descriptor.width == scene@.0,
        descriptor.height == scene@.1,
        descriptor.depth_or_array_layers == 1,
        descriptor.dimension is D2,
        descriptor.format is Rgba8UnormSrgb,
        descriptor.mip_level_count == 1,
        descriptor.sample_count == 1,
        descriptor.usage.copy_src,
        descriptor.usage.copy_dst,
        descriptor.usage.texture_binding,
        descriptor.usage.render_attachment,
{
    let (width, height) = scene.dimensions();
    RenderTargetDescriptor {
        width,
        height,
        depth_or_array_layers: 1,
        dimension: TextureDimension::D2,
        format: TextureFormat::Rgba8UnormSrgb,
        mip_level_count: 1,
        sample_count: 1,
        usage: TextureUsage {
            copy_src: true,
            copy_dst: true,
            texture_binding: true,
            render_attachment: true,
        },
    }
}

} // verus!
