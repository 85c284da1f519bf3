use crate::image::ImageId;
use vstd::prelude::*;

verus! {

/// Which texture, if any, backs the `u,v` sampling of a triangle draw
/// (text glyphs sample an atlas; raw triangle batches may sample none).
#[derive(Copy, Clone, Debug, PartialEq, Eq, Structural)]
pub enum GlyphTexture {
    /// The draw samples no glyph texture.
    NoTexture,
    /// The draw samples an alpha-mask atlas.
    AlphaMask(ImageId),
    /// The draw samples a color atlas.
    ColorTexture(ImageId),
}

impl GlyphTexture {
    /// The image the texture samples, if it samples one.
    pub open spec fn spec_image_id(self) -> Option<ImageId> {
        match self {
            GlyphTexture::NoTexture => None,
            GlyphTexture::AlphaMask(id) => Some(id),
            GlyphTexture::ColorTexture(id) => Some(id),
        }
    }

    /// The image the texture samples, if it samples one.
    pub fn image_id(self) -> (id: Option<ImageId>)
        ensures
            id == self.spec_image_id(),
    {
        match self {
            GlyphTexture::NoTexture => None,
            GlyphTexture::AlphaMask(id) => Some(id),
            GlyphTexture::ColorTexture(id) => Some(id),
        }
    }
}

impl Default for GlyphTexture {
    /// By default a draw samples no glyph texture.
    fn default() -> (texture: Self)
        ensures
            texture == GlyphTexture::NoTexture,
    {
        GlyphTexture::NoTexture
    }
}

} // verus!
