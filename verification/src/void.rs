use crate::color::Color;
use crate::error::ErrorKind;
use crate::image::{ImageFilter, ImageId, ImageInfo, ImageSource, ImageStore};
use crate::params::ShaderType;
use crate::renderer::{Command, CommandType, RenderTarget, Renderer, Vertex};
use vstd::prelude::*;

verus! {

/// One observable backend action, as the headless backend records it.
/// A live backend would perform these actions in exactly this order.
#[derive(Copy, Clone, Debug, PartialEq, Eq, Structural)]
pub enum RenderEvent {
    /// The active render target switched.
    TargetSwitched(RenderTarget),
    /// A sub-rectangle of the active target was cleared to a color.
    RectCleared {
        /// Rectangle x position.
        x: u32,
        /// Rectangle y position.
        y: u32,
        /// Rectangle width.
        width: u32,
        /// Rectangle height.
        height: u32,
        /// Clear color.
        color: Color,
    },
    /// A stencil-only pass ran: coverage written, no color.
    StencilPass(ShaderType),
    /// A color fill pass ran.
    FillPass(ShaderType),
    /// A stroke color pass ran.
    StrokePass(ShaderType),
    /// A triangle-list draw ran.
    TrianglesPass(ShaderType),
    /// A filter was composited over an image.
    ImageFiltered {
        /// The image the filtered output targeted.
        target_image: ImageId,
        /// The filter that was applied.
        filter: ImageFilter,
    },
}

/// The events one command makes a conforming backend perform, in order.
/// This is the dispatch contract of the command model: a concave fill is
/// stencil pass then fill pass, a stencil stroke is coverage pass then
/// color pass, every other command is a single action.
pub open spec fn events_of_command(cmd: Command) -> Seq<RenderEvent> {
    match cmd.cmd_type {
        CommandType::SetRenderTarget(target) => seq![RenderEvent::TargetSwitched(target)],
        CommandType::ClearRect { x, y, width, height, color } => seq![
            RenderEvent::RectCleared { x, y, width, height, color },
        ],
        CommandType::ConvexFill { params } => seq![RenderEvent::FillPass(params.shader_type)],
        CommandType::ConcaveFill { stencil_params, fill_params } => seq![
            RenderEvent::StencilPass(stencil_params.shader_type),
            RenderEvent::FillPass(fill_params.shader_type),
        ],
        CommandType::Stroke { params } => seq![RenderEvent::StrokePass(params.shader_type)],
        CommandType::StencilStroke { params1, params2 } => seq![
            RenderEvent::StencilPass(params1.shader_type),
            RenderEvent::StrokePass(params2.shader_type),
        ],
        CommandType::Triangles { params } => seq![RenderEvent::TrianglesPass(params.shader_type)],
        CommandType::RenderFilteredImage { target_image, filter } => seq![
            RenderEvent::ImageFiltered { target_image, filter },
        ],
    }
}

/// The events a whole command list makes a conforming backend perform:
/// each command's events, in command order, with nothing interleaved.
pub open spec fn trace_of(commands: Seq<Command>) -> Seq<RenderEvent>
    decreases commands.len(),
{
    if commands.len() == 0 {
        Seq::empty()
    } else {
        trace_of(commands.drop_last()) + events_of_command(commands.last())
    }
}

/// How one command changes the active render target: a target switch
/// selects its target, every other command leaves the target alone.
pub open spec fn target_step(prev: RenderTarget, cmd: Command) -> RenderTarget {
    match cmd.cmd_type {
        CommandType::SetRenderTarget(target) => target,
        _ => prev,
    }
}

/// The active render target after a command list runs, starting from
/// `start`. The initial target of a fresh backend is the screen.
pub open spec fn target_after(start: RenderTarget, commands: Seq<Command>) -> RenderTarget
    decreases commands.len(),
{
    if commands.len() == 0 {
        start
    } else {
        target_step(target_after(start, commands.drop_last()), commands.last())
    }
}

/// Law: a concave fill's events are exactly its stencil pass followed by
/// its fill pass, each carrying that pass's own shader selector; the
/// stencil pass always comes first.
pub proof fn lemma_concave_fill_pass_order(cmd: Command)
    ensures
        cmd.cmd_type matches CommandType::ConcaveFill { stencil_params, fill_params }
            ==> events_of_command(cmd) == seq![
            RenderEvent::StencilPass(stencil_params.shader_type),
            RenderEvent::FillPass(fill_params.shader_type),
        ],
{
}

/// Law: a stencil stroke's events are exactly its first (coverage) pass
/// followed by its second (color) pass, each carrying that pass's own
/// shader selector; the first pass always comes first.
pub proof fn lemma_stencil_stroke_pass_order(cmd: Command)
    ensures
        cmd.cmd_type matches CommandType::StencilStroke { params1, params2 }
            ==> events_of_command(cmd) == seq![
            RenderEvent::StencilPass(params1.shader_type),
            RenderEvent::StrokePass(params2.shader_type),
        ],
{
}

/// Extending a command list by one command appends exactly that command's
/// events to the trace.
proof fn lemma_trace_of_take_step(commands: Seq<Command>, i: int)
    requires
        0 <= i < commands.len(),
    ensures
        trace_of(commands.take(i + 1)) == trace_of(commands.take(i)) + events_of_command(
            commands[i],
        ),
{
    let taken = commands.take(i + 1);
    assert(taken.drop_last() =~= commands.take(i));
    assert(taken.last() == commands[i]);
}

/// Extending a command list by one command steps the active target by
/// exactly that command.
proof fn lemma_target_after_take_step(start: RenderTarget, commands: Seq<Command>, i: int)
    requires
        0 <= i < commands.len(),
    ensures
        target_after(start, commands.take(i + 1)) == target_step(
            target_after(start, commands.take(i)),
            commands[i],
        ),
{
    let taken = commands.take(i + 1);
    assert(taken.drop_last() =~= commands.take(i));
    assert(taken.last() == commands[i]);
}

/// The headless backend's image resource: nothing backs it, since no GPU
/// memory exists.
#[derive(Copy, Clone, Debug, PartialEq, Eq, Structural)]
pub struct VoidImage;

/// The null backend: it owns no GPU context, trivially succeeds at every
/// resource operation, and records the actions a live backend would have
/// performed. It lets the canvas layer run headless (layout-only use,
/// tests) while keeping each frame's work inspectable.
pub struct Void {
    /// Viewport width from the last size change.
    pub width: u32,
    /// Viewport height from the last size change.
    pub height: u32,
    /// Bits of the float pixel ratio from the last size change.
    pub dpi: u32,
    /// The render target subsequent commands would draw to.
    pub target: RenderTarget,
    /// Every action recorded so far, oldest first.
    pub trace: Vec<RenderEvent>,
}

impl Void {
    /// A fresh headless backend: zero size, an empty trace, and the screen
    /// as the initial render target.
    pub fn new() -> (void: Self)
        ensures
            void.trace@ =~= Seq::<RenderEvent>::empty(),
            void.width == 0,
            void.height == 0,
            void.dpi == 0,
            void.target == RenderTarget::Screen,
    {
        Void { width: 0, height: 0, dpi: 0, target: RenderTarget::Screen, trace: Vec::new() }
    }

    /// Records the events of one command, appending them to the trace.
    fn record_command(&mut self, cmd: &Command)
        ensures
            final(self).trace@ == old(self).trace@ + events_of_command(*cmd),
            final(self).target == target_step(old(self).target, *cmd),
            final(self).width == old(self).width,
            final(self).height == old(self).height,
            final(self).dpi == old(self).dpi,
    {
        match &cmd.cmd_type {
            CommandType::SetRenderTarget(target) => {
                self.target = *target;
                self.trace.push(RenderEvent::TargetSwitched(*target));
            },
            CommandType::ClearRect { x, y, width, height, color } => {
                self.trace.push(
                    RenderEvent::RectCleared {
                        x: *x,
                        y: *y,
                        width: *width,
                        height: *height,
                        color: *color,
                    },
                );
            },
            CommandType::ConvexFill { params } => {
                self.trace.push(RenderEvent::FillPass(params.shader_type));
            },
            CommandType::ConcaveFill { stencil_params, fill_params } => {
                self.trace.push(RenderEvent::StencilPass(stencil_params.shader_type));
                self.trace.push(RenderEvent::FillPass(fill_params.shader_type));
            },
            CommandType::Stroke { params } => {
                self.trace.push(RenderEvent::StrokePass(params.shader_type));
            },
            CommandType::StencilStroke { params1, params2 } => {
                self.trace.push(RenderEvent::StencilPass(params1.shader_type));
                self.trace.push(RenderEvent::StrokePass(params2.shader_type));
            },
            CommandType::Triangles { params } => {
                self.trace.push(RenderEvent::TrianglesPass(params.shader_type));
            },
            CommandType::RenderFilteredImage { target_image, filter } => {
                self.trace.push(
                    RenderEvent::ImageFiltered { target_image: *target_image, filter: *filter },
                );
            },
        }
        proof {
            assert(self.trace@ =~= old(self).trace@ + events_of_command(*cmd));
        }
    }
}

impl Default for Void {
    /// Same as [`Void::new`].
    fn default() -> (void: Self)
        ensures
            void.trace@ =~= Seq::<RenderEvent>::empty(),
            void.width == 0,
            void.height == 0,
            void.dpi == 0,
            void.target == RenderTarget::Screen,
    {
        Void::new()
    }
}

impl Renderer for Void {
    type Image = VoidImage;

    /// Remembers the size; nothing is configured since nothing exists.
    fn set_size(&mut self, width: u32, height: u32, dpi: u32)
        ensures
            final(self).width == width,
            final(self).height == height,
            final(self).dpi == dpi,
            final(self).target == old(self).target,
            final(self).trace@ == old(self).trace@,
    {
        self.width = width;
        self.height = height;
        self.dpi = dpi;
    }

    /// Walks the command list strictly in order and appends exactly the
    /// list's event trace to the record; the store and the size state are
    /// untouched.
    fn render(
        &mut self,
        images: &mut ImageStore<VoidImage>,
        verts: &[Vertex],
        commands: Vec<Command>,
    )
        ensures
            final(self).trace@ == old(self).trace@ + trace_of(commands@),
            final(self).target == target_after(old(self).target, commands@),
            final(self).width == old(self).width,
            final(self).height == old(self).height,
            final(self).dpi == old(self).dpi,
    {
        let n = commands.len();
        proof {
            assert(old(self).trace@ + trace_of(commands@.take(0)) =~= old(self).trace@);
        }
        let mut i: usize = 0;
        while i < n
            invariant
                i <= n,
                n == commands@.len(),
                self.trace@ == old(self).trace@ + trace_of(commands@.take(i as int)),
                self.target == target_after(old(self).target, commands@.take(i as int)),
                self.width == old(self).width,
                self.height == old(self).height,
                self.dpi == old(self).dpi,
            decreases n - i,
        {
            self.record_command(&commands[i]);
            proof {
                lemma_trace_of_take_step(commands@, i as int);
                lemma_target_after_take_step(old(self).target, commands@, i as int);
                assert(self.trace@ =~= old(self).trace@ + trace_of(commands@.take(i as int + 1)));
            }
            i = i + 1;
        }
        proof {
            assert(commands@.take(n as int) =~= commands@);
        }
    }

    /// Hands out the empty resource; allocation cannot fail without a GPU.
    fn alloc_image(&mut self, info: ImageInfo) -> (result: Result<VoidImage, ErrorKind>)
        ensures
            result is Ok,
            *final(self) == *old(self),
    {
        Ok(VoidImage)
    }

    /// Accepts any upload; no pixels exist to write.
    fn update_image(
        &mut self,
        image: &mut VoidImage,
        data: &ImageSource,
        x: usize,
        y: usize,
    ) -> (result: Result<(), ErrorKind>)
        ensures
            result == Ok::<(), ErrorKind>(()),
            *final(self) == *old(self),
            *final(image) == *old(image),
    {
        Ok(())
    }

    /// Nothing to release.
    fn delete_image(&mut self, image: VoidImage, image_id: ImageId)
        ensures
            *final(self) == *old(self),
    {
    }

    /// A headless backend has no screen to read back, so this always fails.
    fn screenshot(&mut self) -> (result: Result<imgref::ImgVec<rgb::RGBA8>, ErrorKind>)
        ensures
            result is Err,
            *final(self) == *old(self),
    {
        Err(ErrorKind::GeneralError("headless backend cannot read back the screen".to_owned()))
    }
}

} // verus!
