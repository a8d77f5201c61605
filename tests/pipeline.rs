use luminance::blending::{Equation, Factor};
use luminance::device::DeviceCall;
use luminance::pipeline::{
    opengl_blending_equation, opengl_blending_factor, Framebuffer, Pipe, Pipeline, Program,
    RawBuffer, RawTexture, RenderCommand, ShadingCommand,
};

const EQUATIONS: [Equation; 5] =
    [Equation::Additive, Equation::Subtract, Equation::ReverseSubtract, Equation::Min, Equation::Max];

const FACTORS: [Factor; 11] = [
    Factor::One,
    Factor::Zero,
    Factor::SrcColor,
    Factor::SrcColorComplement,
    Factor::DestColor,
    Factor::DestColorComplement,
    Factor::SrcAlpha,
    Factor::SrcAlphaComplement,
    Factor::DstAlpha,
    Factor::DstAlphaComplement,
    Factor::SrcAlphaSaturate,
];

fn framebuffer() -> Framebuffer {
    Framebuffer { handle: 3, width: 800, height: 600 }
}

fn clear_color() -> [u32; 4] {
    [0.5f32.to_bits(), 0.25f32.to_bits(), 1.0f32.to_bits(), 1.0f32.to_bits()]
}

fn head() -> Vec<DeviceCall> {
    vec![
        DeviceCall::BindFramebuffer { handle: 3 },
        DeviceCall::Viewport { width: 800, height: 600 },
        DeviceCall::ClearColor {
            red: 0.5f32.to_bits(),
            green: 0.25f32.to_bits(),
            blue: 1.0f32.to_bits(),
            alpha: 1.0f32.to_bits(),
        },
        DeviceCall::ClearColorAndDepth,
    ]
}

fn draws(calls: &[DeviceCall]) -> Vec<usize> {
    calls
        .iter()
        .filter_map(|c| match c {
            DeviceCall::Render { tess, .. } => Some(*tess),
            _ => None,
        })
        .collect()
}

#[test]
fn equation_constants_match_gl() {
    assert_eq!(opengl_blending_equation(Equation::Additive), gl::FUNC_ADD);
    assert_eq!(opengl_blending_equation(Equation::Subtract), gl::FUNC_SUBTRACT);
    assert_eq!(opengl_blending_equation(Equation::ReverseSubtract), gl::FUNC_REVERSE_SUBTRACT);
    assert_eq!(opengl_blending_equation(Equation::Min), gl::MIN);
    assert_eq!(opengl_blending_equation(Equation::Max), gl::MAX);
}

#[test]
fn factor_constants_match_gl() {
    assert_eq!(opengl_blending_factor(Factor::One), gl::ONE);
    assert_eq!(opengl_blending_factor(Factor::Zero), gl::ZERO);
    assert_eq!(opengl_blending_factor(Factor::SrcColor), gl::SRC_COLOR);
    assert_eq!(opengl_blending_factor(Factor::SrcColorComplement), gl::ONE_MINUS_SRC_COLOR);
    assert_eq!(opengl_blending_factor(Factor::DestColor), gl::DST_COLOR);
    assert_eq!(opengl_blending_factor(Factor::DestColorComplement), gl::ONE_MINUS_DST_COLOR);
    assert_eq!(opengl_blending_factor(Factor::SrcAlpha), gl::SRC_ALPHA);
    assert_eq!(opengl_blending_factor(Factor::SrcAlphaComplement), gl::ONE_MINUS_SRC_ALPHA);
    assert_eq!(opengl_blending_factor(Factor::DstAlpha), gl::DST_ALPHA);
    assert_eq!(opengl_blending_factor(Factor::DstAlphaComplement), gl::ONE_MINUS_DST_ALPHA);
    assert_eq!(opengl_blending_factor(Factor::SrcAlphaSaturate), gl::SRC_ALPHA_SATURATE);
}

#[test]
fn translations_are_one_to_one() {
    for (i, a) in EQUATIONS.iter().enumerate() {
        for (j, b) in EQUATIONS.iter().enumerate() {
            assert_eq!(i == j, opengl_blending_equation(*a) == opengl_blending_equation(*b));
        }
    }
    for (i, a) in FACTORS.iter().enumerate() {
        for (j, b) in FACTORS.iter().enumerate() {
            assert_eq!(i == j, opengl_blending_factor(*a) == opengl_blending_factor(*b));
        }
    }
}

#[test]
fn empty_pipeline_still_prepares_target() {
    let textures = vec![RawTexture { handle: 10, target: gl::TEXTURE_2D }];
    let buffers = vec![RawBuffer { handle: 20 }];
    let p = Pipeline::new(framebuffer(), clear_color(), textures, buffers, vec![]);
    let mut expected = head();
    expected.push(DeviceCall::ActiveTexture { unit: 0 });
    expected.push(DeviceCall::BindTexture { target: gl::TEXTURE_2D, handle: 10 });
    expected.push(DeviceCall::BindUniformBuffer { index: 0, handle: 20 });
    let calls = p.run();
    assert_eq!(calls, expected);
    assert!(draws(&calls).is_empty());
}

#[test]
fn textures_and_buffers_bound_by_position() {
    let textures = vec![
        RawTexture { handle: 7, target: gl::TEXTURE_2D },
        RawTexture { handle: 5, target: gl::TEXTURE_CUBE_MAP },
        RawTexture { handle: 9, target: gl::TEXTURE_2D_ARRAY },
    ];
    let buffers = vec![RawBuffer { handle: 40 }, RawBuffer { handle: 30 }];
    let p = Pipeline::new(framebuffer(), clear_color(), textures, buffers, vec![]);
    let mut expected = head();
    expected.extend([
        DeviceCall::ActiveTexture { unit: 0 },
        DeviceCall::BindTexture { target: gl::TEXTURE_2D, handle: 7 },
        DeviceCall::ActiveTexture { unit: 1 },
        DeviceCall::BindTexture { target: gl::TEXTURE_CUBE_MAP, handle: 5 },
        DeviceCall::ActiveTexture { unit: 2 },
        DeviceCall::BindTexture { target: gl::TEXTURE_2D_ARRAY, handle: 9 },
        DeviceCall::BindUniformBuffer { index: 0, handle: 40 },
        DeviceCall::BindUniformBuffer { index: 1, handle: 30 },
    ]);
    assert_eq!(p.run(), expected);
}

#[test]
fn draw_calls_nested_in_list_order() {
    let (n, m, k) = (2usize, 3usize, 4usize);
    let mut shading = Vec::new();
    for a in 0..n {
        let mut renders = Vec::new();
        for b in 0..m {
            let tess = (0..k).map(|c| Pipe::new(1000 + c, (a * m + b) * k + c)).collect();
            renders.push(Pipe::new(100 + b, RenderCommand::new(None, true, tess, 1, None)));
        }
        shading.push(Pipe::new(a, ShadingCommand::new(Program { handle: 50 + a as u32 }, renders)));
    }
    let p = Pipeline::new(framebuffer(), clear_color(), vec![], vec![], shading);
    let calls = p.run();
    assert_eq!(draws(&calls), (0..n * m * k).collect::<Vec<usize>>());
    let updates = calls.iter().filter(|c| matches!(c, DeviceCall::UpdateProgram { .. })).count();
    assert_eq!(updates, n + n * m + n * m * k);
    // each shading command's hook comes right before its program is made active
    assert_eq!(calls[4], DeviceCall::UpdateProgram { hook: 0, program: 50 });
    assert_eq!(calls[5], DeviceCall::UseProgram { program: 50 });
}

#[test]
fn one_render_command_exact_calls() {
    let size = Some(2.0f32.to_bits());
    let rc = RenderCommand::new(
        Some((Equation::Additive, Factor::One, Factor::Zero)),
        false,
        vec![Pipe::new(7, 11), Pipe::new(8, 12)],
        3,
        size,
    );
    let sc = ShadingCommand::new(Program { handle: 9 }, vec![Pipe::new(6, rc)]);
    let p = Pipeline::new(framebuffer(), clear_color(), vec![], vec![], vec![Pipe::new(5, sc)]);
    let mut expected = head();
    expected.extend([
        DeviceCall::UpdateProgram { hook: 5, program: 9 },
        DeviceCall::UseProgram { program: 9 },
        DeviceCall::UpdateProgram { hook: 6, program: 9 },
        DeviceCall::EnableBlending,
        DeviceCall::BlendEquation { equation: gl::FUNC_ADD },
        DeviceCall::BlendFunc { src: gl::ONE, dst: gl::ZERO },
        DeviceCall::DisableDepthTest,
        DeviceCall::UpdateProgram { hook: 7, program: 9 },
        DeviceCall::Render { tess: 11, rasterization_size: size, instances: 3 },
        DeviceCall::UpdateProgram { hook: 8, program: 9 },
        DeviceCall::Render { tess: 12, rasterization_size: size, instances: 3 },
    ]);
    assert_eq!(p.run(), expected);
}

#[test]
fn no_blending_disables_it() {
    let rc = RenderCommand::new(None, true, vec![Pipe::new(0, 1)], 1, None);
    let sc = ShadingCommand::new(Program { handle: 2 }, vec![Pipe::new(0, rc)]);
    let p = Pipeline::new(framebuffer(), clear_color(), vec![], vec![], vec![Pipe::new(0, sc)]);
    let calls = p.run();
    assert_eq!(
        calls[4..].to_vec(),
        vec![
            DeviceCall::UpdateProgram { hook: 0, program: 2 },
            DeviceCall::UseProgram { program: 2 },
            DeviceCall::UpdateProgram { hook: 0, program: 2 },
            DeviceCall::DisableBlending,
            DeviceCall::EnableDepthTest,
            DeviceCall::UpdateProgram { hook: 0, program: 2 },
            DeviceCall::Render { tess: 1, rasterization_size: None, instances: 1 },
        ]
    );
}
