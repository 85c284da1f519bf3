use crate::color::Color;
use crate::composite::CompositeOperationState;
use crate::error::ErrorKind;
use crate::image::{ImageFilter, ImageId, ImageInfo, ImageSource, ImageStore};
use crate::paint::GlyphTexture;
use crate::params::Params;
use vstd::prelude::*;

verus! {

/// A vertex of the shared geometry buffer: position (`x`, `y`) and
/// texture/parameter coordinate (`u`, `v`).
///
/// Each field holds the IEEE-754 bit pattern of the corresponding 32-bit
/// float, packed in `(x, y, u, v)` order, so a backend uploading the buffer
/// raw sees exactly the four 32-bit words the tessellator produced. The core
/// never interprets the coordinates.
#[derive(Copy, Clone, Debug, PartialEq, Eq, Structural)]
pub struct Vertex {
    /// Bits of the x position.
    pub x: u32,
    /// Bits of the y position.
    pub y: u32,
    /// Bits of the u coordinate.
    pub u: u32,
    /// Bits of the v coordinate.
    pub v: u32,
}

impl Vertex {
    /// A vertex from the four coordinate bit patterns.
    pub fn new(x: u32, y: u32, u: u32, v: u32) -> (vertex: Self)
        ensures
            vertex == (Vertex { x, y, u, v }),
    {
        Vertex { x, y, u, v }
    }

    /// Overwrites all four coordinates.
    pub fn set(&mut self, x: u32, y: u32, u: u32, v: u32)
        ensures
            *final(self) == (Vertex { x, y, u, v }),
    {
        *self = Vertex { x, y, u, v };
    }
}

impl Default for Vertex {
    /// The zero vertex: all four coordinate words zero.
    fn default() -> (vertex: Self)
        ensures
            vertex == (Vertex { x: 0u32, y: 0u32, u: 0u32, v: 0u32 }),
    {
        Vertex { x: 0, y: 0, u: 0, v: 0 }
    }
}

/// True when an optional `(offset, count)` range is a half-open interval
/// inside a vertex buffer of `len` vertices.
pub open spec fn range_within(range: Option<(usize, usize)>, len: nat) -> bool {
    match range {
        Some((offset, count)) => offset + count <= len,
        None => true,
    }
}

/// One fill or stroke sub-mesh: a pair of optional `(offset, count)` ranges
/// into the externally owned, shared vertex buffer. Commands reference
/// geometry only through such ranges; vertices are never copied.
#[derive(Copy, Clone, Debug)]
pub struct Drawable {
    /// Range of the fill mesh vertices.
    pub fill_verts: Option<(usize, usize)>,
    /// Range of the stroke mesh vertices.
    pub stroke_verts: Option<(usize, usize)>,
}

impl Drawable {
    /// True when both ranges lie within a buffer of `len` vertices.
    pub open spec fn within(self, len: nat) -> bool {
        range_within(self.fill_verts, len) && range_within(self.stroke_verts, len)
    }
}

impl Default for Drawable {
    /// A drawable with no fill and no stroke mesh.
    fn default() -> (drawable: Self)
        ensures
            drawable.fill_verts is None,
            drawable.stroke_verts is None,
    {
        Drawable { fill_verts: None, stroke_verts: None }
    }
}

/// The polygon fill rule a draw applies as stencil state.
#[derive(Copy, Clone, Debug, PartialEq, Eq, Structural)]
pub enum FillRule {
    /// Non-zero winding rule.
    NonZero,
    /// Even-odd parity rule.
    EvenOdd,
}

impl Default for FillRule {
    /// The default fill rule is non-zero winding.
    fn default() -> (rule: Self)
        ensures
            rule == FillRule::NonZero,
    {
        FillRule::NonZero
    }
}

/// The surface subsequent draws write to: the screen, or an off-screen image.
#[derive(Copy, Clone, Debug, PartialEq, Eq, PartialOrd, Ord, Structural)]
pub enum RenderTarget {
    /// Render to the screen.
    Screen,
    /// Render into the image with the given id.
    Image(ImageId),
}

/// The closed set of rendering operations a command can describe. Each
/// variant carries exactly the parameters its execution needs.
#[derive(Clone, Debug)]
pub enum CommandType {
    /// Switch the active render target for all subsequent commands.
    SetRenderTarget(RenderTarget),
    /// Clear a sub-rectangle of the active target to a color.
    ClearRect {
        /// Rectangle x position.
        x: u32,
        /// Rectangle y position.
        y: u32,
        /// Rectangle width.
        width: u32,
        /// Rectangle height.
        height: u32,
        /// Clear color.
        color: Color,
    },
    /// One fill draw of convex geometry; no stencil pass is needed.
    ConvexFill {
        /// Fill parameters.
        params: Params,
    },
    /// Two passes over the same geometry: a stencil-only pass writing
    /// coverage, then a fill pass gated by that stencil state. Realizes
    /// even-odd and non-zero fills of concave or self-intersecting polygons.
    ConcaveFill {
        /// Parameters of the stencil pass, applied first.
        stencil_params: Params,
        /// Parameters of the color fill pass, applied second.
        fill_params: Params,
    },
    /// One anti-aliased draw of a non-overlapping stroke.
    Stroke {
        /// Stroke parameters.
        params: Params,
    },
    /// Two passes implementing an overlap-safe anti-aliased stroke: the
    /// first resolves coverage into the stencil buffer, the second draws
    /// color gated by it.
    StencilStroke {
        /// Parameters of the first (coverage) pass.
        params1: Params,
        /// Parameters of the second (color) pass.
        params2: Params,
    },
    /// An arbitrary triangle-list draw (text glyphs, raw batches).
    Triangles {
        /// Triangle parameters.
        params: Params,
    },
    /// Composite a filter over an image, producing filtered output on the
    /// backend without CPU-side pixel work.
    RenderFilteredImage {
        /// The image the filtered output targets.
        target_image: ImageId,
        /// The filter to apply.
        filter: ImageFilter,
    },
}

/// An immutable description of one rendering operation: which geometry
/// ranges to draw, with which shader parameters, against which render
/// target state. Commands are built once and consumed in insertion order;
/// they reference the frame's shared vertex buffer by range and never own
/// geometry.
#[derive(Clone, Debug)]
pub struct Command {
    /// What operation the command performs.
    pub cmd_type: CommandType,
    /// The sub-meshes the command draws, in order.
    pub drawables: Vec<Drawable>,
    /// Vertex range of a triangle-list draw, if any.
    pub triangles_verts: Option<(usize, usize)>,
    /// An image the command samples, if any.
    pub image: Option<ImageId>,
    /// Which atlas texture backs `u,v` sampling.
    pub glyph_texture: GlyphTexture,
    /// Fill rule applied as stencil state for this command's draws.
    pub fill_rule: FillRule,
    /// Blend state for this command's draws.
    pub composite_operation: CompositeOperationState,
}

impl Command {
    /// A command of the given kind with nothing attached yet: no drawables,
    /// no triangle range, no image, no glyph texture, the non-zero fill rule
    /// and source-over compositing.
    pub fn new(flavor: CommandType) -> (cmd: Self)
        ensures
            cmd.cmd_type == flavor,
            cmd.drawables@ =~= Seq::<Drawable>::empty(),
            cmd.triangles_verts is None,
            cmd.image is None,
            cmd.glyph_texture == GlyphTexture::NoTexture,
            cmd.fill_rule == FillRule::NonZero,
            cmd.composite_operation == CompositeOperationState::spec_source_over(),
    {
        Self {
            cmd_type: flavor,
            drawables: Vec::new(),
            triangles_verts: None,
            image: None,
            glyph_texture: GlyphTexture::default(),
            fill_rule: FillRule::default(),
            composite_operation: CompositeOperationState::default(),
        }
    }

    /// The per-command invariant: every vertex range referenced by a
    /// drawable or by the triangle range lies within a buffer of `len`
    /// vertices, and every image id the command references is live (`live`
    /// is the image store's domain).
    pub open spec fn valid_for(self, len: nat, live: Set<u64>) -> bool {
        &&& forall|i: int|
            0 <= i < self.drawables@.len() ==> (#[trigger] self.drawables@[i]).within(len)
        &&& range_within(self.triangles_verts, len)
        &&& (self.image matches Some(id) ==> live.contains(id.0))
        &&& (self.glyph_texture.spec_image_id() matches Some(id) ==> live.contains(id.0))
        &&& (self.cmd_type matches CommandType::SetRenderTarget(RenderTarget::Image(id))
            ==> live.contains(id.0))
        &&& (self.cmd_type matches CommandType::RenderFilteredImage { target_image, .. }
            ==> live.contains(target_image.0))
    }
}

/// The whole-frame invariant: every command of the list is valid for the
/// frame's vertex buffer length and the store's set of live image ids.
pub open spec fn commands_valid(commands: Seq<Command>, len: nat, live: Set<u64>) -> bool {
    forall|i: int| 0 <= i < commands.len() ==> (#[trigger] commands[i]).valid_for(len, live)
}

/// Declares `imgref::Img`, the image crate type a screenshot readback is
/// returned in. Relied on only as an opaque container handed to the caller.
#[verifier::external_type_specification]
#[verifier::external_body]
#[verifier::reject_recursive_types(Container)]
pub struct ExImg<Container>(imgref::Img<Container>);

/// Declares `rgb::Rgba` (the `rgb` crate's pixel struct, aliased `RGBA8` at
/// component type `u8`), the pixel type of a screenshot readback. Relied on
/// only as an opaque value.
#[verifier::external_type_specification]
#[verifier::external_body]
#[verifier::reject_recursive_types(T)]
#[verifier::reject_recursive_types(A)]
pub struct ExRgba<T, A>(rgb::Rgba<T, A>);

/// The single contract every backend implements; the canvas layer draws
/// only through it. A backend may drive a GPU, or record and discard work
/// (see [`crate::void::Void`]).
pub trait Renderer: Sized {
    /// The backend-specific image resource type the store owns.
    type Image;

    /// Reconfigures the backend's viewport and pixel-ratio state. `dpi`
    /// carries the bit pattern of the float pixel ratio; the call must be
    /// idempotent when repeated with unchanged values.
    fn set_size(&mut self, width: u32, height: u32, dpi: u32);

    /// Executes one frame: walks `commands` strictly in order against the
    /// shared vertex buffer and image store. Callers must hand in only
    /// commands whose vertex ranges lie inside `verts` and whose image ids
    /// are live in `images`; the backend never creates or invalidates ids,
    /// so the store's mapping is unchanged when the call returns.
    fn render(
        &mut self,
        images: &mut ImageStore<Self::Image>,
        verts: &[Vertex],
        commands: Vec<Command>,
    )
        requires
            commands_valid(commands@, verts@.len(), old(images)@.dom()),
        ensures
            final(images)@ == old(images)@,
    ;

    /// Creates a backend image resource sized and typed per `info`; fails
    /// with a backend-chosen error kind if the resource cannot be created.
    fn alloc_image(&mut self, info: ImageInfo) -> Result<Self::Image, ErrorKind>;

    /// Uploads `data` into the resource at offset `(x, y)`. The store
    /// validates bounds and format before delegating here; a backend may
    /// still fail for its own reasons.
    fn update_image(
        &mut self,
        image: &mut Self::Image,
        data: &ImageSource,
        x: usize,
        y: usize,
    ) -> Result<(), ErrorKind>;

    /// Releases the backend resource; deletion always succeeds once the
    /// caller owns the resource, so there is no error path.
    fn delete_image(&mut self, image: Self::Image, image_id: ImageId);

    /// Reads the current screen target back into host memory; fails when
    /// the backend cannot read back (a headless backend, for one).
    fn screenshot(&mut self) -> Result<imgref::ImgVec<rgb::RGBA8>, ErrorKind>;
}

} // verus!
