use niri_color::blend::{
    adjust_tex_program_for_content, restore_tex_program, set_frame_blend, BlendSurfaceRenderElement,
    BlendUniform, CommittedDescription, ContentColor, FrameBlendState, FrameRenderer,
    TexProgramOverride,
};
use niri_color::description::{
    ColorPrimaries, ContainerPrimaries, ImageDescription, DEFAULT_REFERENCE_LUMINANCE,
};

const CONTENTS: [ContentColor; 3] =
    [ContentColor::Sdr, ContentColor::BlendSpace, ContentColor::Scrgb];

/// The scale of the default reference luminance, as float bits.
fn scale() -> u32 {
    ((f64::from(DEFAULT_REFERENCE_LUMINANCE) / 10000.) as f32).to_bits()
}

fn frame_override() -> Option<TexProgramOverride> {
    let mut renderer = FrameRenderer::default();
    assert!(!set_frame_blend(&mut renderer, Some(scale()), Some(7)));
    renderer.tex_program
}

fn contents(slot: &Option<TexProgramOverride>) -> Option<(u32, Vec<BlendUniform>)> {
    slot.as_ref().map(|over| (over.program, over.uniforms.clone()))
}

fn hdr_uniforms() -> Vec<BlendUniform> {
    vec![
        BlendUniform::HdrPq(true),
        BlendUniform::RefLumScale(scale()),
        BlendUniform::Scrgb(false),
    ]
}

#[test]
fn content_color_of_descriptions() {
    let committed = |windows_scrgb, hdr| Some(CommittedDescription { windows_scrgb, hdr });
    assert_eq!(ContentColor::default(), ContentColor::Sdr);
    assert_eq!(ContentColor::from_description(None), ContentColor::Sdr);
    assert_eq!(ContentColor::from_description(committed(false, false)), ContentColor::Sdr);
    assert_eq!(ContentColor::from_description(committed(false, true)), ContentColor::BlendSpace);
    // scRGB goes before HDR.
    assert_eq!(ContentColor::from_description(committed(true, true)), ContentColor::Scrgb);
    assert_eq!(ContentColor::from_description(committed(true, false)), ContentColor::Scrgb);
}

#[test]
fn content_color_of_parametric_descriptions() {
    let srgb = ImageDescription::srgb();
    let wide = ImageDescription {
        primaries: ContainerPrimaries::Named(ColorPrimaries::Bt2020),
        ..srgb
    };
    let content =
        |desc| ContentColor::from_description(Some(CommittedDescription::parametric(desc)));
    assert_eq!(content(&srgb), ContentColor::Sdr);
    assert_eq!(content(&wide), ContentColor::BlendSpace);
}

#[test]
fn uniform_names() {
    assert_eq!(BlendUniform::HdrPq(true).name(), "niri_hdr_pq");
    assert_eq!(BlendUniform::RefLumScale(0).name(), "niri_ref_lum_scale");
    assert_eq!(BlendUniform::Scrgb(false).name(), "niri_scrgb");
}

#[test]
fn uniforms_on_hdr_frames() {
    let mut state = FrameBlendState::default();
    state.set(Some(scale()));
    assert_eq!(state.uniforms().to_vec(), hdr_uniforms());
    assert_eq!(
        state.uniforms_for_content(ContentColor::BlendSpace),
        [
            BlendUniform::HdrPq(false),
            BlendUniform::RefLumScale(scale()),
            BlendUniform::Scrgb(false),
        ]
    );
    assert_eq!(
        state.uniforms_for_content(ContentColor::Scrgb),
        [
            BlendUniform::HdrPq(true),
            BlendUniform::RefLumScale(scale()),
            BlendUniform::Scrgb(true),
        ]
    );
}

#[test]
fn uniforms_on_sdr_frames() {
    let zero = [
        BlendUniform::HdrPq(false),
        BlendUniform::RefLumScale(0f32.to_bits()),
        BlendUniform::Scrgb(false),
    ];
    let mut state = FrameBlendState::default();
    for scale_before in [None, Some(scale())] {
        state.set(scale_before);
        state.set(None);
        assert_eq!(state.uniforms(), zero);
        for content in CONTENTS {
            assert_eq!(state.uniforms_for_content(content), zero);
        }
    }
}

#[test]
fn hdr_frames_and_back() {
    let mut renderer = FrameRenderer::default();
    assert!(!set_frame_blend(&mut renderer, Some(scale()), Some(7)));
    assert!(renderer.blend.hdr_pq);
    assert_eq!(contents(&renderer.tex_program), Some((7, hdr_uniforms())));
    assert_eq!(renderer.solid_color_scale, Some(scale()));
    assert!(!set_frame_blend(&mut renderer, None, Some(7)));
    assert!(!renderer.blend.hdr_pq);
    assert_eq!(contents(&renderer.tex_program), None);
    assert_eq!(renderer.solid_color_scale, None);
}

#[test]
fn missing_shader() {
    let mut renderer = FrameRenderer::default();
    assert!(set_frame_blend(&mut renderer, Some(scale()), None));
    assert_eq!(contents(&renderer.tex_program), None);
    assert_eq!(renderer.solid_color_scale, Some(scale()));
    assert!(renderer.blend.hdr_pq);
    // An override that was there stays.
    assert!(!set_frame_blend(&mut renderer, Some(scale()), Some(7)));
    assert!(set_frame_blend(&mut renderer, Some(1), None));
    assert_eq!(contents(&renderer.tex_program), Some((7, hdr_uniforms())));
    assert!(!set_frame_blend(&mut renderer, None, None));
    assert_eq!(contents(&renderer.tex_program), None);
}

#[test]
fn adjust_and_restore() {
    let raised = {
        let mut uniforms = hdr_uniforms();
        uniforms.push(BlendUniform::Scrgb(true));
        uniforms
    };
    for (content, during, saves) in [
        (ContentColor::Sdr, Some((7, hdr_uniforms())), false),
        (ContentColor::BlendSpace, None, true),
        (ContentColor::Scrgb, Some((7, raised)), true),
    ] {
        let mut frame = frame_override();
        let saved = adjust_tex_program_for_content(&mut frame, content);
        assert_eq!(contents(&frame), during);
        assert_eq!(saved.is_some(), saves);
        restore_tex_program(&mut frame, saved);
        assert_eq!(contents(&frame), Some((7, hdr_uniforms())));
    }
}

#[test]
fn sdr_frames_are_left_alone() {
    for content in CONTENTS {
        let mut frame = None;
        assert!(adjust_tex_program_for_content(&mut frame, content).is_none());
        assert_eq!(contents(&frame), None);
    }
}

#[test]
fn elements_draw_and_restore() {
    for content in CONTENTS {
        let element = BlendSurfaceRenderElement::new("surface", content);
        assert_eq!(element.content(), content);
        assert_eq!(*element.inner(), "surface");
        let (frame, drawn_with) = element.draw(frame_override(), |frame| {
            let during = contents(&frame);
            (frame, during)
        });
        assert_eq!(contents(&frame), Some((7, hdr_uniforms())));
        assert_eq!(drawn_with.is_none(), content == ContentColor::BlendSpace);
        let flags = drawn_with.map_or(0, |(_, uniforms)| uniforms.len());
        assert_eq!(flags == 4, content == ContentColor::Scrgb);
        assert_eq!(element.into_inner(), "surface");
    }
}

#[test]
fn scrgb_is_not_scanned_out() {
    for content in CONTENTS {
        let element = BlendSurfaceRenderElement::new((), content);
        let expected = if content == ContentColor::Scrgb { None } else { Some(3) };
        assert_eq!(element.underlying_storage(|| Some(3)), expected);
        assert_eq!(element.underlying_storage(|| None::<u32>), None);
    }
    // It is not even looked up.
    let element = BlendSurfaceRenderElement::new((), ContentColor::Scrgb);
    assert_eq!(element.underlying_storage(|| -> Option<u32> { panic!("looked up") }), None);
}
