use vstd::prelude::*;

verus! {

/// One factor of the blend function a draw uses to combine new pixels with
/// the existing contents of the render target.
#[derive(Copy, Clone, Debug, PartialEq, Eq, Structural)]
pub enum BlendFactor {
    /// Factor zero.
    Zero,
    /// Factor one.
    One,
    /// The source color.
    SrcColor,
    /// One minus the source color.
    OneMinusSrcColor,
    /// The destination color.
    DstColor,
    /// One minus the destination color.
    OneMinusDstColor,
    /// The source alpha.
    SrcAlpha,
    /// One minus the source alpha.
    OneMinusSrcAlpha,
    /// The destination alpha.
    DstAlpha,
    /// One minus the destination alpha.
    OneMinusDstAlpha,
    /// The saturated source alpha.
    SrcAlphaSaturate,
}

/// The composite operation attached to one command: the blend factors for
/// the color and alpha halves of the blend equation. Applied as blend state
/// for that command's draws only; it must not leak across commands.
#[derive(Copy, Clone, Debug, PartialEq, Eq, Structural)]
pub struct CompositeOperationState {
    /// Source factor for the color channels.
    pub src_rgb: BlendFactor,
    /// Destination factor for the color channels.
    pub dst_rgb: BlendFactor,
    /// Source factor for the alpha channel.
    pub src_alpha: BlendFactor,
    /// Destination factor for the alpha channel.
    pub dst_alpha: BlendFactor,
}

impl CompositeOperationState {
    /// The source-over composite operation, the conventional default:
    /// new pixels are laid over the old ones weighted by source alpha.
    pub open spec fn spec_source_over() -> Self {
        CompositeOperationState {
            src_rgb: BlendFactor::One,
            dst_rgb: BlendFactor::OneMinusSrcAlpha,
            src_alpha: BlendFactor::One,
            dst_alpha: BlendFactor::OneMinusSrcAlpha,
        }
    }

    /// Source-over blending, the state every new command starts with.
    pub fn source_over() -> (state: Self)
        ensures
            state == Self::spec_source_over(),
    {
        CompositeOperationState {
            src_rgb: BlendFactor::One,
            dst_rgb: BlendFactor::OneMinusSrcAlpha,
            src_alpha: BlendFactor::One,
            dst_alpha: BlendFactor::OneMinusSrcAlpha,
        }
    }
}

impl Default for CompositeOperationState {
    /// The default composite operation is source-over.
    fn default() -> (state: Self)
        ensures
            state == Self::spec_source_over(),
    {
        Self::source_over()
    }
}

} // verus!
