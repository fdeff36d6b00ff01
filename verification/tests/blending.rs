use easygpu::blending::{BlendComponent, BlendFactor, BlendOp, BlendState, Blending};

#[test]
fn new_keeps_its_parts() {
    let blending = Blending::new(BlendFactor::Zero, BlendFactor::SrcAlpha, BlendOp::Add);
    assert_eq!(blending.as_wgpu(), (BlendFactor::Zero, BlendFactor::SrcAlpha, BlendOp::Add));
}

#[test]
fn constant_replaces_the_target() {
    assert_eq!(Blending::constant().as_wgpu(), (BlendFactor::One, BlendFactor::Zero, BlendOp::Add));
    assert_eq!(
        Blending::constant(),
        Blending::new(BlendFactor::One, BlendFactor::Zero, BlendOp::Add)
    );
}

#[test]
fn default_is_alpha_blending() {
    assert_eq!(
        Blending::default().as_wgpu(),
        (BlendFactor::SrcAlpha, BlendFactor::OneMinusSrcAlpha, BlendOp::Add)
    );
}

#[test]
fn blend_state_uses_one_equation_for_color_and_alpha() {
    let state = BlendState::from(Blending::default());
    let component = BlendComponent {
        src_factor: BlendFactor::SrcAlpha,
        dst_factor: BlendFactor::OneMinusSrcAlpha,
        operation: BlendOp::Add,
    };
    assert_eq!(state, BlendState { color: component, alpha: component });

    let constant = BlendState::from(Blending::constant());
    assert_eq!(constant.color, constant.alpha);
    assert_eq!(constant.color.src_factor, BlendFactor::One);
    assert_eq!(constant.color.dst_factor, BlendFactor::Zero);
}
