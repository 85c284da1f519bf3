use vstd::prelude::*;

verus! {

/// Selector for the shader program variant a draw call uses.
///
/// The numeric encoding produced by [`ShaderType::to_code`] is consumed
/// directly as a shader uniform selector and must never be renumbered.
#[derive(Copy, Clone, Debug, Eq, PartialEq, Hash, Structural)]
pub enum ShaderType {
    /// Gradient fill.
    FillGradient,
    /// Image (texture) fill.
    FillImage,
    /// Stencil-only pass: writes coverage, no color.
    Stencil,
    /// Image fill modulated by a gradient.
    FillImageGradient,
    /// Image filter pass.
    FilterImage,
}

impl ShaderType {
    /// The fixed numeric code of each shader variant.
    pub open spec fn spec_code(self) -> u32 {
        match self {
            ShaderType::FillGradient => 0,
            ShaderType::FillImage => 1,
            ShaderType::Stencil => 2,
            ShaderType::FillImageGradient => 3,
            ShaderType::FilterImage => 4,
        }
    }

    /// The stable numeric encoding of the selector: gradient fill 0, image
    /// fill 1, stencil 2, image-gradient fill 3, image filter 4. A backend
    /// converts the code to the 32-bit float uniform the shader reads; the
    /// codes are small integers, so that conversion is exact.
    pub fn to_code(self) -> (code: u32)
        ensures
            code == self.spec_code(),
    {
        match self {
            ShaderType::FillGradient => 0,
            ShaderType::FillImage => 1,
            ShaderType::Stencil => 2,
            ShaderType::FillImageGradient => 3,
            ShaderType::FilterImage => 4,
        }
    }
}

impl Default for ShaderType {
    /// The default selector is the gradient fill.
    fn default() -> (shader: Self)
        ensures
            shader == ShaderType::FillGradient,
    {
        ShaderType::FillGradient
    }
}

/// Per-draw shader parameters: the shader variant to select plus the uniform
/// words that draw needs.
///
/// Uniform values are carried as raw 32-bit words (the bit patterns of the
/// backend's float uniforms), so they pass through the core bit-exactly and
/// are never interpreted here. A `Params` value is chosen when the command is
/// built and never mutated afterwards.
#[derive(Clone, Debug)]
pub struct Params {
    /// Which shader program variant the draw selects.
    pub shader_type: ShaderType,
    /// The uniform words handed to that shader, in the backend's layout.
    pub uniforms: Vec<u32>,
}

impl Params {
    /// Parameters selecting `shader_type` with no uniform words attached yet.
    pub fn new(shader_type: ShaderType) -> (params: Self)
        ensures
            params.shader_type == shader_type,
            params.uniforms@ =~= Seq::<u32>::empty(),
    {
        Params { shader_type, uniforms: Vec::new() }
    }
}

impl Default for Params {
    /// Parameters selecting the default shader with no uniform words.
    fn default() -> (params: Self)
        ensures
            params.shader_type == ShaderType::FillGradient,
            params.uniforms@ =~= Seq::<u32>::empty(),
    {
        Params { shader_type: ShaderType::FillGradient, uniforms: Vec::new() }
    }
}

} // verus!
