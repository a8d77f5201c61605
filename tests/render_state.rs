use luminance::blending::{Blending, BlendingMode, Equation, Factor};
use luminance::depth_test::{DepthComparison, DepthWrite};
use luminance::face_culling::{FaceCulling, FaceCullingMode, FaceCullingOrder};
use luminance::render_state::RenderState;

fn additive() -> Blending {
    Blending { equation: Equation::Additive, src: Factor::SrcAlpha, dst: Factor::SrcAlphaComplement }
}

fn maximum() -> Blending {
    Blending { equation: Equation::Max, src: Factor::One, dst: Factor::One }
}

#[test]
fn default_state() {
    let s = RenderState::default();
    assert_eq!(s.blending(), None);
    assert_eq!(s.depth_test(), Some(DepthComparison::Less));
    assert_eq!(s.depth_write(), DepthWrite::On);
    assert_eq!(s.face_culling(), None);
}

#[test]
fn set_blending_then_get() {
    let s = RenderState::default().set_blending(Some(additive()));
    assert_eq!(s.blending(), Some(BlendingMode::Combined(additive())));
    assert_eq!(s.depth_test(), Some(DepthComparison::Less));
    assert_eq!(s.depth_write(), DepthWrite::On);
    assert_eq!(s.face_culling(), None);
    let cleared = s.set_blending(None);
    assert_eq!(cleared.blending(), None);
    assert_eq!(cleared, RenderState::default());
}

#[test]
fn set_blending_separate_then_get() {
    let s = RenderState::default()
        .set_depth_write(DepthWrite::Off)
        .set_blending_separate(additive(), maximum());
    assert_eq!(s.blending(), Some(BlendingMode::Separate { rgb: additive(), alpha: maximum() }));
    assert_ne!(s.blending(), Some(BlendingMode::Combined(additive())));
    assert_eq!(s.depth_write(), DepthWrite::Off);
    assert_eq!(s.depth_test(), Some(DepthComparison::Less));
    assert_eq!(s.face_culling(), None);
}

#[test]
fn set_depth_test_then_get() {
    let s = RenderState::default().set_depth_test(Some(DepthComparison::GreaterOrEqual));
    assert_eq!(s.depth_test(), Some(DepthComparison::GreaterOrEqual));
    assert_eq!(s.blending(), None);
    assert_eq!(s.depth_write(), DepthWrite::On);
    let off = s.set_depth_test(None);
    assert_eq!(off.depth_test(), None);
    assert_eq!(off.face_culling(), None);
}

#[test]
fn set_depth_write_then_get() {
    let s = RenderState::default().set_blending(Some(maximum())).set_depth_write(DepthWrite::Off);
    assert_eq!(s.depth_write(), DepthWrite::Off);
    assert_eq!(s.blending(), Some(BlendingMode::Combined(maximum())));
    assert_eq!(s.depth_test(), Some(DepthComparison::Less));
    assert_eq!(s.face_culling(), None);
}

#[test]
fn set_face_culling_then_get() {
    let fc = FaceCulling::new(FaceCullingOrder::CCW, FaceCullingMode::Back);
    let s = RenderState::default().set_face_culling(Some(fc));
    assert_eq!(s.face_culling(), Some(fc));
    assert_eq!(fc.order, FaceCullingOrder::CCW);
    assert_eq!(fc.mode, FaceCullingMode::Back);
    assert_eq!(s.blending(), None);
    assert_eq!(s.depth_test(), Some(DepthComparison::Less));
    assert_eq!(s.depth_write(), DepthWrite::On);
    assert_eq!(s.set_face_culling(None), RenderState::default());
}
