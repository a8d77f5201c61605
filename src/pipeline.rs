//! Dynamic rendering pipelines.
//!
//! A `Pipeline` renders into a framebuffer: it binds the framebuffer, clears it, binds a
//! set of textures and uniform buffers, then walks its shading commands, render commands
//! and drawables in order. Resources are referred to by their device handles and drawables
//! and update hooks by an index into the caller's own tables, so a pipeline owns no device
//! resource. `Pipeline::run` yields the calls to issue, in order.

use vstd::prelude::*;

use crate::blending::{Equation, Factor};
use crate::device::{
    DeviceCall, GLenum, DST_ALPHA, DST_COLOR, FUNC_ADD, FUNC_REVERSE_SUBTRACT, FUNC_SUBTRACT, MAX,
    MIN, ONE, ONE_MINUS_DST_ALPHA, ONE_MINUS_DST_COLOR, ONE_MINUS_SRC_ALPHA, ONE_MINUS_SRC_COLOR,
    SRC_ALPHA, SRC_ALPHA_SATURATE, SRC_COLOR, ZERO,
};

verus! {

/// A framebuffer to render into: its handle and its size in pixels.
#[derive(Clone, Copy, Debug, PartialEq, Eq, Structural)]
pub struct Framebuffer {
    pub handle: u32,
    pub width: u32,
    pub height: u32,
}

/// A texture: its handle and the target it binds to (2D, cube map, array, ...).
#[derive(Clone, Copy, Debug, PartialEq, Eq, Structural)]
pub struct RawTexture {
    pub handle: u32,
    pub target: GLenum,
}

/// A buffer that can be bound as a uniform buffer.
#[derive(Clone, Copy, Debug, PartialEq, Eq, Structural)]
pub struct RawBuffer {
    pub handle: u32,
}

/// A shader program.
#[derive(Clone, Copy, Debug, PartialEq, Eq, Structural)]
pub struct Program {
    pub handle: u32,
}

/// A pipe connects the layers of a pipeline: before `next` is processed, the update hook
/// `update_program` is invoked with the current program.
#[derive(Clone, Debug)]
pub struct Pipe<T> {
    /// Index of the update hook in the caller's table of hooks.
    pub update_program: usize,
    pub next: T,
}

impl<T> Pipe<T> {
    /// Create a pipe.
    pub fn new(update_program: usize, next: T) -> (r: Self)
        ensures
            r.update_program == update_program,
            r.next == next,
    {
        Pipe { update_program, next }
    }
}

/// A render command: how to rasterize a list of drawables.
#[derive(Clone, Debug)]
pub struct RenderCommand {
    /// Color blending: `None` for no blending, or `Some((equation, source, destination))`.
    pub blending: Option<(Equation, Factor, Factor)>,
    /// Whether the depth test is performed.
    pub depth_test: bool,
    /// The drawables, each an index into the caller's table of tessellations.
    pub tessellations: Vec<Pipe<usize>>,
    /// Number of instances of each drawable to render.
    pub instances: u32,
    /// Point size or line width, as the bits of an `f32`.
    pub rasterization_size: Option<u32>,
}

impl RenderCommand {
    /// Create a render command.
    pub fn new(
        blending: Option<(Equation, Factor, Factor)>,
        depth_test: bool,
        tessellations: Vec<Pipe<usize>>,
        instances: u32,
        rasterization_size: Option<u32>,
    ) -> (r: Self)
        ensures
            r.blending == blending,
            r.depth_test == depth_test,
            r.tessellations == tessellations,
            r.instances == instances,
            r.rasterization_size == rasterization_size,
    {
        RenderCommand { blending, depth_test, tessellations, instances, rasterization_size }
    }
}

/// A shading command: render commands gathered under one shader program.
#[derive(Clone, Debug)]
pub struct ShadingCommand {
    pub program: Program,
    pub render_commands: Vec<Pipe<RenderCommand>>,
}

impl ShadingCommand {
    /// Create a shading command.
    pub fn new(program: Program, render_commands: Vec<Pipe<RenderCommand>>) -> (r: Self)
        ensures
            r.program == program,
            r.render_commands == render_commands,
    {
        ShadingCommand { program, render_commands }
    }
}

/// A dynamic rendering pipeline, rendering into `framebuffer`.
#[derive(Clone, Debug)]
pub struct Pipeline {
    /// The framebuffer rendered into.
    pub framebuffer: Framebuffer,
    /// The color the framebuffer is cleared with, as the bits of four `f32`: red, green,
    /// blue, alpha.
    pub clear_color: [u32; 4],
    /// Textures bound to the units from the first one on, in order.
    pub texture_set: Vec<RawTexture>,
    /// Buffers bound to the uniform-buffer binding points from the first one on, in order.
    pub buffer_set: Vec<RawBuffer>,
    /// Shading commands, run in order.
    pub shading_commands: Vec<Pipe<ShadingCommand>>,
}

/// The device constant of a blending equation.
pub open spec fn equation_code(equation: Equation) -> GLenum {
    match equation {
        Equation::Additive => FUNC_ADD,
        Equation::Subtract => FUNC_SUBTRACT,
        Equation::ReverseSubtract => FUNC_REVERSE_SUBTRACT,
        Equation::Min => MIN,
        Equation::Max => MAX,
    }
}

/// The device constant of a blending factor.
pub open spec fn factor_code(factor: Factor) -> GLenum {
    match factor {
        Factor::One => ONE,
        Factor::Zero => ZERO,
        Factor::SrcColor => SRC_COLOR,
        Factor::SrcColorComplement => ONE_MINUS_SRC_COLOR,
        Factor::DestColor => DST_COLOR,
        Factor::DestColorComplement => ONE_MINUS_DST_COLOR,
        Factor::SrcAlpha => SRC_ALPHA,
        Factor::SrcAlphaComplement => ONE_MINUS_SRC_ALPHA,
        Factor::DstAlpha => DST_ALPHA,
        Factor::DstAlphaComplement => ONE_MINUS_DST_ALPHA,
        Factor::SrcAlphaSaturate => SRC_ALPHA_SATURATE,
    }
}

/// The calls that apply a render command's blending.
pub open spec fn blending_calls(blending: Option<(Equation, Factor, Factor)>) -> Seq<DeviceCall> {
    match blending {
        Some((equation, src, dst)) => seq![
            DeviceCall::EnableBlending,
            DeviceCall::BlendEquation { equation: equation_code(equation) },
            DeviceCall::BlendFunc { src: factor_code(src), dst: factor_code(dst) },
        ],
        None => seq![DeviceCall::DisableBlending],
    }
}

/// The call that applies a render command's depth test.
pub open spec fn depth_test_calls(test: bool) -> Seq<DeviceCall> {
    if test {
        seq![DeviceCall::EnableDepthTest]
    } else {
        seq![DeviceCall::DisableDepthTest]
    }
}

/// The calls for a list of drawables: for each, its update hook, then its draw call.
pub open spec fn drawable_calls(
    program: u32,
    rasterization_size: Option<u32>,
    instances: u32,
    tess: Seq<Pipe<usize>>,
) -> Seq<DeviceCall>
    decreases tess.len(),
{
    if tess.len() == 0 {
        seq![]
    } else {
        drawable_calls(program, rasterization_size, instances, tess.drop_last()) + seq![
            DeviceCall::UpdateProgram { hook: tess.last().update_program, program },
            DeviceCall::Render { tess: tess.last().next, rasterization_size, instances },
        ]
    }
}

/// The calls that apply a render command's state, before its drawables.
pub open spec fn render_state_calls(program: u32, piped: Pipe<RenderCommand>) -> Seq<DeviceCall> {
    seq![DeviceCall::UpdateProgram { hook: piped.update_program, program }] + blending_calls(
        piped.next.blending,
    ) + depth_test_calls(piped.next.depth_test)
}

/// The calls for one render command under the program `program`.
pub open spec fn render_command_calls(program: u32, piped: Pipe<RenderCommand>) -> Seq<DeviceCall> {
    render_state_calls(program, piped) + drawable_calls(
        program,
        piped.next.rasterization_size,
        piped.next.instances,
        piped.next.tessellations@,
    )
}

/// The calls for a list of render commands under the program `program`.
pub open spec fn render_commands_calls(
    program: u32,
    cmds: Seq<Pipe<RenderCommand>>,
) -> Seq<DeviceCall>
    decreases cmds.len(),
{
    if cmds.len() == 0 {
        seq![]
    } else {
        render_commands_calls(program, cmds.drop_last()) + render_command_calls(
            program,
            cmds.last(),
        )
    }
}

/// The calls for one shading command: its update hook, the program made active, then its
/// render commands.
pub open spec fn shading_command_calls(piped: Pipe<ShadingCommand>) -> Seq<DeviceCall> {
    let program = piped.next.program.handle;
    seq![
        DeviceCall::UpdateProgram { hook: piped.update_program, program },
        DeviceCall::UseProgram { program },
    ] + render_commands_calls(program, piped.next.render_commands@)
}

/// The calls for a list of shading commands.
pub open spec fn shading_commands_calls(cmds: Seq<Pipe<ShadingCommand>>) -> Seq<DeviceCall>
    decreases cmds.len(),
{
    if cmds.len() == 0 {
        seq![]
    } else {
        shading_commands_calls(cmds.drop_last()) + shading_command_calls(cmds.last())
    }
}

/// The calls that bind a texture set: texture `i` goes to unit `i`.
pub open spec fn texture_calls(textures: Seq<RawTexture>) -> Seq<DeviceCall>
    decreases textures.len(),
{
    if textures.len() == 0 {
        seq![]
    } else {
        texture_calls(textures.drop_last()) + seq![
            DeviceCall::ActiveTexture { unit: (textures.len() - 1) as usize },
            DeviceCall::BindTexture {
                target: textures.last().target,
                handle: textures.last().handle,
            },
        ]
    }
}

/// The calls that bind a buffer set: buffer `i` goes to binding point `i`.
pub open spec fn buffer_calls(buffers: Seq<RawBuffer>) -> Seq<DeviceCall>
    decreases buffers.len(),
{
    if buffers.len() == 0 {
        seq![]
    } else {
        buffer_calls(buffers.drop_last()) + seq![
            DeviceCall::BindUniformBuffer {
                index: (buffers.len() - 1) as usize,
                handle: buffers.last().handle,
            },
        ]
    }
}

/// The calls that prepare the framebuffer: bind it, set the viewport to all of it, clear it.
pub open spec fn framebuffer_calls(p: Pipeline) -> Seq<DeviceCall> {
    seq![
        DeviceCall::BindFramebuffer { handle: p.framebuffer.handle },
        DeviceCall::Viewport { width: p.framebuffer.width, height: p.framebuffer.height },
        DeviceCall::ClearColor {
            red: p.clear_color[0],
            green: p.clear_color[1],
            blue: p.clear_color[2],
            alpha: p.clear_color[3],
        },
        DeviceCall::ClearColorAndDepth,
    ]
}

/// The calls that run before the shading commands.
pub open spec fn setup_calls(p: Pipeline) -> Seq<DeviceCall> {
    framebuffer_calls(p) + texture_calls(p.texture_set@) + buffer_calls(p.buffer_set@)
}

/// All the calls that running a pipeline issues, in order.
pub open spec fn pipeline_calls(p: Pipeline) -> Seq<DeviceCall> {
    setup_calls(p) + shading_commands_calls(p.shading_commands@)
}

/// The device constant of a blending equation.
pub fn opengl_blending_equation(equation: Equation) -> (r: GLenum)
    ensures
        r == equation_code(equation),
{
    match equation {
        Equation::Additive => FUNC_ADD,
        Equation::Subtract => FUNC_SUBTRACT,
        Equation::ReverseSubtract => FUNC_REVERSE_SUBTRACT,
        Equation::Min => MIN,
        Equation::Max => MAX,
    }
}

/// The device constant of a blending factor.
pub fn opengl_blending_factor(factor: Factor) -> (r: GLenum)
    ensures
        r == factor_code(factor),
{
    match factor {
        Factor::One => ONE,
        Factor::Zero => ZERO,
        Factor::SrcColor => SRC_COLOR,
        Factor::SrcColorComplement => ONE_MINUS_SRC_COLOR,
        Factor::DestColor => DST_COLOR,
        Factor::DestColorComplement => ONE_MINUS_DST_COLOR,
        Factor::SrcAlpha => SRC_ALPHA,
        Factor::SrcAlphaComplement => ONE_MINUS_SRC_ALPHA,
        Factor::DstAlpha => DST_ALPHA,
        Factor::DstAlphaComplement => ONE_MINUS_DST_ALPHA,
        Factor::SrcAlphaSaturate => SRC_ALPHA_SATURATE,
    }
}

/// Append the calls that apply a blending configuration.
fn set_blending(blending: Option<(Equation, Factor, Factor)>, out: &mut Vec<DeviceCall>)
    ensures
        final(out)@ == old(out)@ + blending_calls(blending),
{
    match blending {
        Some((equation, src_factor, dest_factor)) => {
            out.push(DeviceCall::EnableBlending);
            out.push(DeviceCall::BlendEquation { equation: opengl_blending_equation(equation) });
            out.push(
                DeviceCall::BlendFunc {
                    src: opengl_blending_factor(src_factor),
                    dst: opengl_blending_factor(dest_factor),
                },
            );
        },
        None => {
            out.push(DeviceCall::DisableBlending);
        },
    }
    assert(final(out)@ =~= old(out)@ + blending_calls(blending));
}

/// Append the call that applies a depth test configuration.
fn set_depth_test(test: bool, out: &mut Vec<DeviceCall>)
    ensures
        final(out)@ == old(out)@ + depth_test_calls(test),
{
    if test {
        out.push(DeviceCall::EnableDepthTest);
    } else {
        out.push(DeviceCall::DisableDepthTest);
    }
    assert(final(out)@ =~= old(out)@ + depth_test_calls(test));
}

impl Pipeline {
    /// Create a pipeline. Nothing is checked: the sets and the list of commands may be empty.
    pub fn new(
        framebuffer: Framebuffer,
        clear_color: [u32; 4],
        texture_set: Vec<RawTexture>,
        buffer_set: Vec<RawBuffer>,
        shading_commands: Vec<Pipe<ShadingCommand>>,
    ) -> (r: Self)
        ensures
            r.framebuffer == framebuffer,
            r.clear_color == clear_color,
            r.texture_set == texture_set,
            r.buffer_set == buffer_set,
            r.shading_commands == shading_commands,
    {
        Pipeline { framebuffer, clear_color, texture_set, buffer_set, shading_commands }
    }

    /// Run the pipeline: the calls to issue on the device, in order.
    ///
    /// The framebuffer is bound, the viewport set to all of it and its color and depth
    /// cleared; the textures are bound to units and the buffers to uniform-buffer binding
    /// points, each by its position in its set; then every shading command runs in order.
    pub fn run(&self) -> (r: Vec<DeviceCall>)
        ensures
            r@ == pipeline_calls(*self),
    {
        let mut out: Vec<DeviceCall> = Vec::new();
        out.push(DeviceCall::BindFramebuffer { handle: self.framebuffer.handle });
        out.push(
            DeviceCall::Viewport { width: self.framebuffer.width, height: self.framebuffer.height },
        );
        out.push(
            DeviceCall::ClearColor {
                red: self.clear_color[0],
                green: self.clear_color[1],
                blue: self.clear_color[2],
                alpha: self.clear_color[3],
            },
        );
        out.push(DeviceCall::ClearColorAndDepth);
        assert(out@ =~= framebuffer_calls(*self));

        let mut unit: usize = 0;
        while unit < self.texture_set.len()
            invariant
                unit <= self.texture_set@.len(),
                out@ == framebuffer_calls(*self) + texture_calls(
                    self.texture_set@.take(unit as int),
                ),
            decreases self.texture_set.len() - unit,
        {
            let tex = self.texture_set[unit];
            out.push(DeviceCall::ActiveTexture { unit });
            out.push(DeviceCall::BindTexture { target: tex.target, handle: tex.handle });
            proof {
                let t = self.texture_set@.take(unit + 1);
                assert(t.drop_last() =~= self.texture_set@.take(unit as int));
            }
            unit = unit + 1;
        }
        assert(self.texture_set@.take(unit as int) =~= self.texture_set@);

        let mut index: usize = 0;
        while index < self.buffer_set.len()
            invariant
                index <= self.buffer_set@.len(),
                out@ == framebuffer_calls(*self) + texture_calls(self.texture_set@) + buffer_calls(
                    self.buffer_set@.take(index as int),
                ),
            decreases self.buffer_set.len() - index,
        {
            let buf = self.buffer_set[index];
            out.push(DeviceCall::BindUniformBuffer { index, handle: buf.handle });
            proof {
                let b = self.buffer_set@.take(index + 1);
                assert(b.drop_last() =~= self.buffer_set@.take(index as int));
            }
            index = index + 1;
        }
        assert(self.buffer_set@.take(index as int) =~= self.buffer_set@);

        let mut i: usize = 0;
        while i < self.shading_commands.len()
            invariant
                i <= self.shading_commands@.len(),
                out@ == setup_calls(*self) + shading_commands_calls(
                    self.shading_commands@.take(i as int),
                ),
            decreases self.shading_commands.len() - i,
        {
            Self::run_shading_command(&self.shading_commands[i], &mut out);
            proof {
                let s = self.shading_commands@.take(i + 1);
                assert(s.drop_last() =~= self.shading_commands@.take(i as int));
            }
            i = i + 1;
        }
        assert(self.shading_commands@.take(i as int) =~= self.shading_commands@);
        out
    }

    /// Append the calls of one shading command: its update hook is invoked with the program
    /// about to become active, the program is made active, then its render commands run.
    fn run_shading_command(piped: &Pipe<ShadingCommand>, out: &mut Vec<DeviceCall>)
        ensures
            final(out)@ == old(out)@ + shading_command_calls(*piped),
    {
        let program = piped.next.program.handle;
        out.push(DeviceCall::UpdateProgram { hook: piped.update_program, program });
        out.push(DeviceCall::UseProgram { program });
        let ghost head = out@;
        let cmds = &piped.next.render_commands;
        let mut i: usize = 0;
        while i < cmds.len()
            invariant
                i <= cmds@.len(),
                out@ == head + render_commands_calls(program, cmds@.take(i as int)),
            decreases cmds.len() - i,
        {
            Self::run_render_command(program, &cmds[i], out);
            proof {
                let s = cmds@.take(i + 1);
                assert(s.drop_last() =~= cmds@.take(i as int));
            }
            i = i + 1;
        }
        assert(cmds@.take(i as int) =~= cmds@);
        assert(final(out)@ =~= old(out)@ + shading_command_calls(*piped));
    }

    /// Append the calls of one render command under the active program: its update hook,
    /// its blending and depth test, then for each drawable the drawable's update hook and
    /// its draw call.
    fn run_render_command(program: u32, piped: &Pipe<RenderCommand>, out: &mut Vec<DeviceCall>)
        ensures
            final(out)@ == old(out)@ + render_command_calls(program, *piped),
    {
        let render_cmd = &piped.next;
        out.push(DeviceCall::UpdateProgram { hook: piped.update_program, program });
        set_blending(render_cmd.blending, out);
        set_depth_test(render_cmd.depth_test, out);
        assert(out@ =~= old(out)@ + render_state_calls(program, *piped));
        let ghost head = out@;
        let tess = &render_cmd.tessellations;
        let mut i: usize = 0;
        while i < tess.len()
            invariant
                i <= tess@.len(),
                out@ == head + drawable_calls(
                    program,
                    render_cmd.rasterization_size,
                    render_cmd.instances,
                    tess@.take(i as int),
                ),
            decreases tess.len() - i,
        {
            let piped_tess = &tess[i];
            out.push(DeviceCall::UpdateProgram { hook: piped_tess.update_program, program });
            out.push(
                DeviceCall::Render {
                    tess: piped_tess.next,
                    rasterization_size: render_cmd.rasterization_size,
                    instances: render_cmd.instances,
                },
            );
            proof {
                let s = tess@.take(i + 1);
                assert(s.drop_last() =~= tess@.take(i as int));
            }
            i = i + 1;
        }
        assert(tess@.take(i as int) =~= tess@);
        assert(final(out)@ =~= old(out)@ + render_command_calls(program, *piped));
    }
}

} // verus!
