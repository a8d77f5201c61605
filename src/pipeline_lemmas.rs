//! What running a pipeline guarantees: the translation tables are one to one, textures and
//! buffers are bound by position, every drawable is drawn once in order, and every draw
//! happens under the blending of its render command.

use vstd::prelude::*;

use crate::blending::{Equation, Factor};
use crate::device::{
    blend_after, blend_step, draw_count, is_blend_call, lemma_blend_after_concat,
    lemma_blend_after_unchanged, lemma_draw_count_concat, BlendState, DeviceCall,
};
use crate::pipeline::{
    blending_calls, buffer_calls, depth_test_calls, drawable_calls, equation_code, factor_code,
    framebuffer_calls, pipeline_calls, render_command_calls, render_commands_calls,
    render_state_calls, setup_calls, shading_command_calls, shading_commands_calls,
    texture_calls, Pipe, Pipeline, RawBuffer, RawTexture, RenderCommand, ShadingCommand,
};

verus! {

/// No two blending equations have the same device constant.
pub proof fn lemma_equation_code_injective(a: Equation, b: Equation)
    ensures
        equation_code(a) == equation_code(b) ==> a == b,
{
}

/// No two blending factors have the same device constant.
pub proof fn lemma_factor_code_injective(a: Factor, b: Factor)
    ensures
        factor_code(a) == factor_code(b) ==> a == b,
{
}

/// Calls with no draw call among them count no draw.
pub proof fn lemma_draw_count_none(calls: Seq<DeviceCall>)
    requires
        forall|i: int| 0 <= i < calls.len() ==> !(#[trigger] calls[i] is Render),
    ensures
        draw_count(calls) == 0,
    decreases calls.len(),
{
    if calls.len() > 0 {
        let d = calls.drop_last();
        assert forall|i: int| 0 <= i < d.len() implies !(#[trigger] d[i] is Render) by {
            assert(d[i] == calls[i]);
        }
        lemma_draw_count_none(d);
        assert(!(calls[calls.len() - 1] is Render));
    }
}

/// The calls for a list of drawables are, for each one, its update hook then its draw call.
pub proof fn lemma_drawable_calls_shape(
    program: u32,
    size: Option<u32>,
    instances: u32,
    tess: Seq<Pipe<usize>>,
)
    ensures
        drawable_calls(program, size, instances, tess).len() == 2 * tess.len(),
        forall|i: int|
            #![trigger tess[i]]
            0 <= i < tess.len() ==> drawable_calls(program, size, instances, tess)[2 * i]
                == (DeviceCall::UpdateProgram { hook: tess[i].update_program, program })
                && drawable_calls(program, size, instances, tess)[2 * i + 1] == (DeviceCall::Render {
                tess: tess[i].next,
                rasterization_size: size,
                instances,
            }),
        draw_count(drawable_calls(program, size, instances, tess)) == tess.len(),
    decreases tess.len(),
{
    if tess.len() > 0 {
        let d = tess.drop_last();
        let last = seq![
            DeviceCall::UpdateProgram { hook: tess.last().update_program, program },
            DeviceCall::Render { tess: tess.last().next, rasterization_size: size, instances },
        ];
        lemma_drawable_calls_shape(program, size, instances, d);
        assert forall|i: int| #![trigger tess[i]] 0 <= i < d.len() implies tess[i] == d[i] by {}
        lemma_draw_count_concat(drawable_calls(program, size, instances, d), last);
        assert(last.drop_last() =~= seq![last[0]]);
        assert(seq![last[0]].drop_last() =~= Seq::<DeviceCall>::empty());
        assert(draw_count(Seq::<DeviceCall>::empty()) == 0);
        assert(draw_count(seq![last[0]]) == 0);
        assert(draw_count(last) == 1);
        let all = drawable_calls(program, size, instances, tess);
        assert forall|i: int| #![trigger tess[i]] 0 <= i < tess.len() implies all[2 * i]
            == (DeviceCall::UpdateProgram { hook: tess[i].update_program, program }) && all[2 * i
            + 1] == (DeviceCall::Render { tess: tess[i].next, rasterization_size: size, instances })
            by {
            if i < d.len() {
                assert(tess[i] == d[i]);
            }
        }
    }
}

/// The binding calls for texture `i` of a texture set.
pub open spec fn texture_binding(textures: Seq<RawTexture>, i: int) -> Seq<DeviceCall> {
    seq![
        DeviceCall::ActiveTexture { unit: i as usize },
        DeviceCall::BindTexture { target: textures[i].target, handle: textures[i].handle },
    ]
}

/// A texture set binds texture `i` to unit `i`, in order.
pub proof fn lemma_texture_calls_shape(textures: Seq<RawTexture>)
    ensures
        texture_calls(textures).len() == 2 * textures.len(),
        forall|i: int|
            0 <= i < textures.len() ==> #[trigger] texture_binding(textures, i) == texture_calls(
                textures,
            ).subrange(2 * i, 2 * i + 2),
    decreases textures.len(),
{
    if textures.len() > 0 {
        let d = textures.drop_last();
        lemma_texture_calls_shape(d);
        let all = texture_calls(textures);
        assert forall|i: int| 0 <= i < textures.len() implies #[trigger] texture_binding(textures, i)
            == all.subrange(2 * i, 2 * i + 2) by {
            if i < d.len() {
                assert(textures[i] == d[i]);
                assert(texture_binding(d, i) == texture_calls(d).subrange(2 * i, 2 * i + 2));
                assert(all[2 * i] == texture_calls(d)[2 * i]);
                assert(all[2 * i + 1] == texture_calls(d)[2 * i + 1]);
            }
            assert(texture_binding(textures, i) =~= all.subrange(2 * i, 2 * i + 2));
        }
    }
}

/// A buffer set binds buffer `i` to uniform-buffer binding point `i`, in order.
pub proof fn lemma_buffer_calls_shape(buffers: Seq<RawBuffer>)
    ensures
        buffer_calls(buffers).len() == buffers.len(),
        forall|i: int|
            #![trigger buffers[i]]
            0 <= i < buffers.len() ==> buffer_calls(buffers)[i] == (DeviceCall::BindUniformBuffer {
                index: i as usize,
                handle: buffers[i].handle,
            }),
    decreases buffers.len(),
{
    if buffers.len() > 0 {
        let d = buffers.drop_last();
        lemma_buffer_calls_shape(d);
        let all = buffer_calls(buffers);
        assert forall|i: int| #![trigger buffers[i]] 0 <= i < buffers.len() implies all[i]
            == (DeviceCall::BindUniformBuffer { index: i as usize, handle: buffers[i].handle }) by {
            if i < d.len() {
                assert(buffers[i] == d[i]);
                assert(all[i] == buffer_calls(d)[i]);
            }
        }
    }
}

/// Running a pipeline first binds the framebuffer, sets the viewport to all of it and
/// clears it; then texture `i` of the texture set is bound to unit `i`, in list order; then
/// buffer `i` of the buffer set is bound to uniform-buffer binding point `i`, in list order.
pub proof fn lemma_binding_order(p: Pipeline)
    ensures
        pipeline_calls(p).subrange(0, 4) == framebuffer_calls(p),
        forall|i: int|
            0 <= i < p.texture_set@.len() ==> #[trigger] texture_binding(p.texture_set@, i)
                == pipeline_calls(p).subrange(4 + 2 * i, 4 + 2 * i + 2),
        forall|i: int|
            #![trigger p.buffer_set@[i]]
            0 <= i < p.buffer_set@.len() ==> pipeline_calls(p)[4 + 2 * p.texture_set@.len() + i]
                == (DeviceCall::BindUniformBuffer { index: i as usize, handle: p.buffer_set@[i].handle }),
{
    let t = p.texture_set@;
    let b = p.buffer_set@;
    lemma_texture_calls_shape(t);
    lemma_buffer_calls_shape(b);
    let all = pipeline_calls(p);
    let f = framebuffer_calls(p);
    assert(all =~= f + texture_calls(t) + buffer_calls(b) + shading_commands_calls(
        p.shading_commands@,
    ));
    assert(all.subrange(0, 4) =~= f);
    assert forall|i: int| 0 <= i < t.len() implies #[trigger] texture_binding(t, i)
        == all.subrange(4 + 2 * i, 4 + 2 * i + 2) by {
        assert(texture_binding(t, i) == texture_calls(t).subrange(2 * i, 2 * i + 2));
        assert(all.subrange(4 + 2 * i, 4 + 2 * i + 2) =~= texture_calls(t).subrange(2 * i, 2 * i + 2));
    }
    assert forall|i: int| #![trigger b[i]] 0 <= i < b.len() implies all[4 + 2 * t.len() + i]
        == (DeviceCall::BindUniformBuffer { index: i as usize, handle: b[i].handle }) by {
        assert(all[4 + 2 * t.len() + i] == buffer_calls(b)[i]);
    }
}

/// The calls that apply a render command's state draw nothing and are, in order: the
/// command's update hook, its blending, its depth test.
pub proof fn lemma_render_state_calls_shape(program: u32, piped: Pipe<RenderCommand>)
    ensures
        draw_count(render_state_calls(program, piped)) == 0,
        forall|i: int|
            0 <= i < render_state_calls(program, piped).len() ==> !(#[trigger] render_state_calls(
                program,
                piped,
            )[i] is Render),
{
    let c = render_state_calls(program, piped);
    assert forall|i: int| 0 <= i < c.len() implies !(#[trigger] c[i] is Render) by {
        match piped.next.blending {
            Some(_) => {
                assert(c.len() == 5);
            },
            None => {
                assert(c.len() == 3);
            },
        }
    }
    lemma_draw_count_none(c);
}

/// One render command draws each of its drawables once.
pub proof fn lemma_render_command_draw_count(program: u32, piped: Pipe<RenderCommand>)
    ensures
        draw_count(render_command_calls(program, piped)) == piped.next.tessellations@.len(),
{
    lemma_render_state_calls_shape(program, piped);
    let cmd = piped.next;
    lemma_drawable_calls_shape(program, cmd.rasterization_size, cmd.instances, cmd.tessellations@);
    lemma_draw_count_concat(
        render_state_calls(program, piped),
        drawable_calls(program, cmd.rasterization_size, cmd.instances, cmd.tessellations@),
    );
}

/// Render commands with `k` drawables each draw `k` times each.
pub proof fn lemma_render_commands_draw_count(
    program: u32,
    cmds: Seq<Pipe<RenderCommand>>,
    k: nat,
)
    requires
        forall|j: int| 0 <= j < cmds.len() ==> (#[trigger] cmds[j]).next.tessellations@.len() == k,
    ensures
        draw_count(render_commands_calls(program, cmds)) == cmds.len() * k,
    decreases cmds.len(),
{
    if cmds.len() > 0 {
        let d = cmds.drop_last();
        assert forall|j: int| 0 <= j < d.len() implies (#[trigger] d[j]).next.tessellations@.len()
            == k by {
            assert(d[j] == cmds[j]);
        }
        lemma_render_commands_draw_count(program, d, k);
        lemma_render_command_draw_count(program, cmds.last());
        assert(cmds.last() == cmds[cmds.len() - 1]);
        lemma_draw_count_concat(
            render_commands_calls(program, d),
            render_command_calls(program, cmds.last()),
        );
        assert(d.len() * k + k == cmds.len() * k) by (nonlinear_arith)
            requires
                d.len() + 1 == cmds.len(),
        ;
    }
}

/// The calls that put a shading command's program in place draw nothing.
proof fn lemma_program_calls_draw_nothing(hook: usize, program: u32)
    ensures
        draw_count(
            seq![
                DeviceCall::UpdateProgram { hook, program },
                DeviceCall::UseProgram { program },
            ],
        ) == 0,
{
    let c = seq![DeviceCall::UpdateProgram { hook, program }, DeviceCall::UseProgram { program }];
    assert forall|i: int| 0 <= i < c.len() implies !(#[trigger] c[i] is Render) by {}
    lemma_draw_count_none(c);
}

/// Shading commands with `m` render commands of `k` drawables each draw `m * k` times each.
pub proof fn lemma_shading_commands_draw_count(cmds: Seq<Pipe<ShadingCommand>>, m: nat, k: nat)
    requires
        forall|i: int| 0 <= i < cmds.len() ==> (#[trigger] cmds[i]).next.render_commands@.len() == m,
        forall|i: int, j: int|
            0 <= i < cmds.len() && 0 <= j < m ==> (#[trigger] cmds[i].next.render_commands@[j]).next.tessellations@.len()
                == k,
    ensures
        draw_count(shading_commands_calls(cmds)) == cmds.len() * m * k,
    decreases cmds.len(),
{
    if cmds.len() > 0 {
        let d = cmds.drop_last();
        assert forall|i: int| 0 <= i < d.len() implies (#[trigger] d[i]).next.render_commands@.len()
            == m by {
            assert(d[i] == cmds[i]);
        }
        assert forall|i: int, j: int| 0 <= i < d.len() && 0 <= j < m implies (
        #[trigger] d[i].next.render_commands@[j]).next.tessellations@.len() == k by {
            assert(d[i] == cmds[i]);
        }
        lemma_shading_commands_draw_count(d, m, k);
        let last = cmds.last();
        assert(last == cmds[cmds.len() - 1]);
        let rcs = last.next.render_commands@;
        assert forall|j: int| 0 <= j < rcs.len() implies (#[trigger] rcs[j]).next.tessellations@.len()
            == k by {
            assert(rcs[j] == cmds[cmds.len() - 1].next.render_commands@[j]);
        }
        let program = last.next.program.handle;
        lemma_render_commands_draw_count(program, rcs, k);
        lemma_program_calls_draw_nothing(last.update_program, program);
        lemma_draw_count_concat(
            seq![
                DeviceCall::UpdateProgram { hook: last.update_program, program },
                DeviceCall::UseProgram { program },
            ],
            render_commands_calls(program, rcs),
        );
        lemma_draw_count_concat(shading_commands_calls(d), shading_command_calls(last));
        assert(rcs.len() == m);
        assert(draw_count(shading_command_calls(last)) == m * k);
        assert(draw_count(shading_commands_calls(cmds)) == d.len() * m * k + m * k);
        assert(d.len() * m * k + m * k == cmds.len() * m * k) by (nonlinear_arith)
            requires
                d.len() + 1 == cmds.len(),
        ;
    } else {
        assert(cmds.len() * m * k == 0) by (nonlinear_arith)
            requires
                cmds.len() == 0,
        ;
    }
}

/// A pipeline of `n` shading commands, each of `m` render commands, each of `k` drawables,
/// issues exactly `n * m * k` draw calls.
pub proof fn lemma_pipeline_draw_count(p: Pipeline, n: nat, m: nat, k: nat)
    requires
        p.shading_commands@.len() == n,
        forall|i: int|
            0 <= i < n ==> (#[trigger] p.shading_commands@[i]).next.render_commands@.len() == m,
        forall|i: int, j: int|
            0 <= i < n && 0 <= j < m
                ==> (#[trigger] p.shading_commands@[i].next.render_commands@[j]).next.tessellations@.len()
                == k,
    ensures
        draw_count(pipeline_calls(p)) == n * m * k,
{
    let t = p.texture_set@;
    let b = p.buffer_set@;
    lemma_texture_calls_shape(t);
    lemma_buffer_calls_shape(b);
    let setup = setup_calls(p);
    assert forall|i: int| 0 <= i < setup.len() implies !(#[trigger] setup[i] is Render) by {
        let f = framebuffer_calls(p);
        if i < 4 {
            assert(setup[i] == f[i]);
        } else if i < 4 + 2 * t.len() {
            let u = (i - 4) / 2;
            assert(i - 4 == 2 * u || i - 4 == 2 * u + 1);
            assert(0 <= u < t.len());
            assert(texture_binding(t, u) == texture_calls(t).subrange(2 * u, 2 * u + 2));
            assert(setup[i] == texture_calls(t)[i - 4]);
            assert(texture_calls(t)[i - 4] == texture_binding(t, u)[i - 4 - 2 * u]);
            assert(!(texture_binding(t, u)[0] is Render));
            assert(!(texture_binding(t, u)[1] is Render));
        } else {
            let u = i - 4 - 2 * t.len();
            assert(0 <= u < b.len());
            assert(setup[i] == buffer_calls(b)[u]);
            assert(buffer_calls(b)[u] == DeviceCall::BindUniformBuffer {
                index: u as usize,
                handle: b[u].handle,
            });
        }
    }
    lemma_draw_count_none(setup);
    lemma_shading_commands_draw_count(p.shading_commands@, m, k);
    lemma_draw_count_concat(setup, shading_commands_calls(p.shading_commands@));
}

/// The blending state that a render command's blending leaves, from state `s`.
pub open spec fn blending_applied(s: BlendState, blending: Option<(Equation, Factor, Factor)>) -> BlendState {
    match blending {
        Some((equation, src, dst)) => BlendState {
            enabled: true,
            equation: equation_code(equation),
            src: factor_code(src),
            dst: factor_code(dst),
        },
        None => BlendState { enabled: false, ..s },
    }
}

/// Every draw call of a render command happens under that command's blending: disabled
/// when it has none, else enabled with exactly its equation and factors, whatever the
/// blending state was before the command.
pub proof fn lemma_render_command_blending(
    s: BlendState,
    program: u32,
    piped: Pipe<RenderCommand>,
    j: int,
)
    requires
        0 <= j < render_command_calls(program, piped).len(),
        render_command_calls(program, piped)[j] is Render,
    ensures
        blend_after(s, render_command_calls(program, piped).take(j)) == blending_applied(
            s,
            piped.next.blending,
        ),
{
    let cmd = piped.next;
    let pre = render_state_calls(program, piped);
    let draws = drawable_calls(program, cmd.rasterization_size, cmd.instances, cmd.tessellations@);
    let all = render_command_calls(program, piped);
    lemma_render_state_calls_shape(program, piped);
    lemma_drawable_calls_shape(program, cmd.rasterization_size, cmd.instances, cmd.tessellations@);
    assert(all == pre + draws);
    if j < pre.len() {
        assert(all[j] == pre[j]);
    }
    let rest = draws.take(j - pre.len());
    assert(all.take(j) =~= pre + rest);
    assert forall|i: int| 0 <= i < rest.len() implies !is_blend_call(#[trigger] rest[i]) by {
        let u = i / 2;
        assert(i == 2 * u || i == 2 * u + 1);
        assert(u < cmd.tessellations@.len());
        assert(rest[i] == draws[i]);
        let tu = cmd.tessellations@[u];
        if i == 2 * u {
            assert(draws[2 * u] == DeviceCall::UpdateProgram { hook: tu.update_program, program });
        } else {
            assert(draws[2 * u + 1] == DeviceCall::Render {
                tess: tu.next,
                rasterization_size: cmd.rasterization_size,
                instances: cmd.instances,
            });
        }
    }
    lemma_blend_after_concat(s, pre, rest);
    lemma_blend_after_unchanged(blend_after(s, pre), rest);
    let up = seq![DeviceCall::UpdateProgram { hook: piped.update_program, program }];
    let bl = blending_calls(cmd.blending);
    let dt = depth_test_calls(cmd.depth_test);
    lemma_blend_after_concat(s, up, bl);
    lemma_blend_after_concat(s, up + bl, dt);
    lemma_blend_after_one(s, up[0]);
    assert(up =~= seq![up[0]]);
    lemma_blend_after_one(blend_after(s, up + bl), dt[0]);
    assert(dt =~= seq![dt[0]]);
    match cmd.blending {
        Some(_) => {
            let s1 = blend_after(s, up);
            assert(bl =~= seq![bl[0]] + seq![bl[1]] + seq![bl[2]]);
            lemma_blend_after_concat(s1, seq![bl[0]] + seq![bl[1]], seq![bl[2]]);
            lemma_blend_after_concat(s1, seq![bl[0]], seq![bl[1]]);
            lemma_blend_after_one(s1, bl[0]);
            lemma_blend_after_one(blend_after(s1, seq![bl[0]]), bl[1]);
            lemma_blend_after_one(blend_after(s1, seq![bl[0]] + seq![bl[1]]), bl[2]);
        },
        None => {
            lemma_blend_after_one(blend_after(s, up), bl[0]);
            assert(bl =~= seq![bl[0]]);
        },
    }
}

/// One call changes the blending state as `blend_step` says.
proof fn lemma_blend_after_one(s: BlendState, c: DeviceCall)
    ensures
        blend_after(s, seq![c]) == blend_step(s, c),
{
    assert(seq![c].drop_last() =~= Seq::<DeviceCall>::empty());
    assert(blend_after(s, Seq::<DeviceCall>::empty()) == s);
    assert(seq![c].last() == c);
}

} // verus!
