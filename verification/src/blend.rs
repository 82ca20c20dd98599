//! Per-output blend space for windowed HDR.
//!
//! An output is either SDR (electrical sRGB, the default) or HDR (the framebuffer holds PQ /
//! BT.2020 electrical values and the connector is signalled accordingly). On HDR outputs, SDR
//! content is encoded into the blend space at draw time by the shaders' `niri_blend` stage;
//! surfaces that already carry an HDR image description pass through numerically.
//!
//! The SDR reference luminance enters the shaders as a fraction of the PQ maximum. That fraction
//! is a 32-bit float; here it is carried as its bit pattern, and only ever copied.

use crate::description::ImageDescription;
use vstd::prelude::*;

verus! {

/// How a surface's content relates to the output blend space, derived from its committed image
/// description.
#[derive(Clone, Copy, Debug, PartialEq, Eq, Structural)]
pub enum ContentColor {
    /// Electrical sRGB content; encoded into the blend space on HDR outputs.
    Sdr,
    /// Content already encoded in the output blend space (carries an HDR image description);
    /// passes through numerically.
    BlendSpace,
    /// Windows scRGB content (linear BT.709, 1.0 = 80 cd/m²); encoded into the blend space with
    /// the fixed absolute scRGB mapping. Immune to tone mapping by definition: only clamped to
    /// the output volume, never rescaled by the SDR reference luminance.
    Scrgb,
}

impl Default for ContentColor {
    fn default() -> (content: Self)
        ensures
            content == ContentColor::Sdr,
    {
        ContentColor::Sdr
    }
}

/// What rendering needs to know of a surface's committed image description.
#[derive(Clone, Copy, Debug, PartialEq, Eq, Structural)]
pub struct CommittedDescription {
    /// Whether it is the Windows scRGB description.
    pub windows_scrgb: bool,
    /// Whether it denotes HDR content.
    pub hdr: bool,
}

impl CommittedDescription {
    /// What there is to know of a description that a client put together from parameters, which
    /// is never the Windows scRGB one.
    pub open spec fn of(desc: ImageDescription) -> CommittedDescription {
        CommittedDescription { windows_scrgb: false, hdr: desc.denotes_hdr() }
    }

    /// Summarizes a parametric image description.
    pub fn parametric(desc: &ImageDescription) -> (committed: Self)
        ensures
            committed == Self::of(*desc),
    {
        Self { windows_scrgb: false, hdr: desc.is_hdr() }
    }
}

impl ContentColor {
    /// The content color of a surface with the given committed image description.
    pub open spec fn of(desc: Option<CommittedDescription>) -> ContentColor {
        if desc is Some && desc->0.windows_scrgb {
            ContentColor::Scrgb
        } else if desc is Some && desc->0.hdr {
            ContentColor::BlendSpace
        } else {
            ContentColor::Sdr
        }
    }

    /// The content color of a surface with the given committed image description.
    pub fn from_description(desc: Option<CommittedDescription>) -> (content: Self)
        ensures
            content == Self::of(desc),
    {
        match desc {
            Some(desc) if desc.windows_scrgb => ContentColor::Scrgb,
            Some(desc) if desc.hdr => ContentColor::BlendSpace,
            _ => ContentColor::Sdr,
        }
    }
}

/// A uniform of the shaders' `niri_blend` stage, with its value.
#[derive(Clone, Copy, Debug, PartialEq, Eq, Structural)]
pub enum BlendUniform {
    /// `niri_hdr_pq`: whether the content is encoded into the blend space.
    HdrPq(bool),
    /// `niri_ref_lum_scale`: the SDR reference luminance over the PQ maximum, as float bits.
    RefLumScale(u32),
    /// `niri_scrgb`: whether the absolute scRGB encode is used.
    Scrgb(bool),
}

impl BlendUniform {
    /// The uniform's name in the shaders.
    pub open spec fn shader_name(self) -> Seq<char> {
        match self {
            BlendUniform::HdrPq(_) => "niri_hdr_pq"@,
            BlendUniform::RefLumScale(_) => "niri_ref_lum_scale"@,
            BlendUniform::Scrgb(_) => "niri_scrgb"@,
        }
    }

    /// The uniform's name in the shaders.
    pub fn name(self) -> (name: &'static str)
        ensures
            name@ == self.shader_name(),
    {
        match self {
            Self::HdrPq(_) => "niri_hdr_pq",
            Self::RefLumScale(_) => "niri_ref_lum_scale",
            Self::Scrgb(_) => "niri_scrgb",
        }
    }
}

/// The blend state of the frame currently being rendered.
///
/// Shader uniform values persist in GL program objects across draws, so on HDR frames every draw
/// sets the blend uniforms from this state, and on SDR frames sets them back to zero.
#[derive(Clone, Copy, Debug, PartialEq, Eq, Structural)]
pub struct FrameBlendState {
    pub hdr_pq: bool,
    pub ref_lum_scale: u32,
}

impl Default for FrameBlendState {
    fn default() -> (state: Self)
        ensures
            state == (FrameBlendState { hdr_pq: false, ref_lum_scale: 0 }),
    {
        FrameBlendState { hdr_pq: false, ref_lum_scale: 0 }
    }
}

impl FrameBlendState {
    /// The state for frames in the given blend space. Marking frames as SDR leaves the scale in
    /// the state as it was; no draw of an SDR frame gets to see it.
    pub open spec fn marked(self, scale: Option<u32>) -> FrameBlendState {
        match scale {
            Some(scale) => FrameBlendState { hdr_pq: true, ref_lum_scale: scale },
            None => FrameBlendState { hdr_pq: false, ..self },
        }
    }

    /// The uniform values for a draw of `content`: all zero on SDR frames.
    pub open spec fn blend_uniforms(self, content: ContentColor) -> Seq<BlendUniform> {
        if self.hdr_pq {
            seq![
                BlendUniform::HdrPq(content != ContentColor::BlendSpace),
                BlendUniform::RefLumScale(self.ref_lum_scale),
                BlendUniform::Scrgb(content == ContentColor::Scrgb),
            ]
        } else {
            seq![
                BlendUniform::HdrPq(false),
                BlendUniform::RefLumScale(0),
                BlendUniform::Scrgb(false),
            ]
        }
    }

    /// Marks the frames rendered from now on as HDR with the given SDR reference luminance scale,
    /// or as SDR (`None`).
    pub fn set(&mut self, scale: Option<u32>)
        ensures
            *final(self) == old(self).marked(scale),
    {
        match scale {
            Some(scale) => {
                self.hdr_pq = true;
                self.ref_lum_scale = scale;
            },
            None => {
                self.hdr_pq = false;
            },
        }
    }

    /// The `niri_blend` uniform values for a draw of SDR content in this frame.
    pub fn uniforms(&self) -> (uniforms: [BlendUniform; 3])
        ensures
            uniforms@ == self.blend_uniforms(ContentColor::Sdr),
    {
        self.uniforms_for_content(ContentColor::Sdr)
    }

    /// The `niri_blend` uniform values for a draw in this frame; [`ContentColor::BlendSpace`]
    /// exempts content already encoded in the blend space, [`ContentColor::Scrgb`] selects the
    /// absolute scRGB encode. In an SDR frame all of them are zero, whatever the content.
    pub fn uniforms_for_content(&self, content: ContentColor) -> (uniforms: [BlendUniform; 3])
        ensures
            uniforms@ == self.blend_uniforms(content),
    {
        let uniforms = if self.hdr_pq {
            [
                BlendUniform::HdrPq(content != ContentColor::BlendSpace),
                BlendUniform::RefLumScale(self.ref_lum_scale),
                BlendUniform::Scrgb(content == ContentColor::Scrgb),
            ]
        } else {
            [
                BlendUniform::HdrPq(false),
                BlendUniform::RefLumScale(0),
                BlendUniform::Scrgb(false),
            ]
        };
        assert(uniforms@ =~= self.blend_uniforms(content));
        uniforms
    }
}

/// A texture program that draws use in place of the default one, with uniforms to set first.
/// The program is known by a number that the renderer gave it.
#[derive(Debug)]
pub struct TexProgramOverride {
    pub program: u32,
    /// Set in order, so that of two values for one uniform the later wins.
    pub uniforms: Vec<BlendUniform>,
}

/// What an override amounts to.
pub struct OverrideView {
    pub program: u32,
    pub uniforms: Seq<BlendUniform>,
}

impl View for TexProgramOverride {
    type V = OverrideView;

    open spec fn view(&self) -> OverrideView {
        OverrideView { program: self.program, uniforms: self.uniforms@ }
    }
}

/// What a slot for an override amounts to.
pub open spec fn override_view(slot: Option<TexProgramOverride>) -> Option<OverrideView> {
    match slot {
        Some(tex_program) => Some(tex_program@),
        None => None,
    }
}

/// The part of a renderer that the blend space governs.
#[derive(Debug)]
pub struct FrameRenderer {
    pub blend: FrameBlendState,
    /// Override of the default texture program, for all frames.
    pub tex_program: Option<TexProgramOverride>,
    /// The scale with which solid colors are encoded on the CPU, where they are encoded.
    pub solid_color_scale: Option<u32>,
}

impl Default for FrameRenderer {
    fn default() -> (renderer: Self)
        ensures
            renderer.blend == (FrameBlendState { hdr_pq: false, ref_lum_scale: 0 }),
            renderer.tex_program is None,
            renderer.solid_color_scale is None,
    {
        FrameRenderer {
            blend: FrameBlendState::default(),
            tex_program: None,
            solid_color_scale: None,
        }
    }
}

/// The override under which default texture draws encode SDR content into the blend space.
pub open spec fn hdr_override(program: u32, scale: u32) -> OverrideView {
    OverrideView {
        program,
        uniforms: seq![
            BlendUniform::HdrPq(true),
            BlendUniform::RefLumScale(scale),
            BlendUniform::Scrgb(false),
        ],
    }
}

/// Configures the renderer for rendering frames in the given blend space: `Some` of the SDR
/// reference luminance scale is HDR (PQ / BT.2020), `None` is SDR. Returns whether the HDR texture
/// shader is wanted and missing, in which case SDR content renders raw.
///
/// In HDR, texture draws using the default program go through the blend-space texture shader
/// `texture_hdr`, solid colors are encoded on the CPU, and the other shader programs read the
/// frame blend state for their `niri_blend` stage. Call with `None` after rendering the output so
/// that screencasts, screenshots and other outputs stay SDR.
pub fn set_frame_blend(
    renderer: &mut FrameRenderer,
    scale: Option<u32>,
    texture_hdr: Option<u32>,
) -> (missing: bool)
    ensures
        final(renderer).blend == old(renderer).blend.marked(scale),
        final(renderer).solid_color_scale == scale,
        scale is None ==> final(renderer).tex_program is None,
        scale is Some && texture_hdr is Some ==> override_view(final(renderer).tex_program)
            == Some(hdr_override(texture_hdr->0, scale->0)),
        scale is Some && texture_hdr is None ==> final(renderer).tex_program == old(
            renderer,
        ).tex_program,
        missing == (scale is Some && texture_hdr is None),
{
    renderer.blend.set(scale);
    match scale {
        Some(lum) => {
            renderer.solid_color_scale = Some(lum);
            match texture_hdr {
                Some(program) => {
                    let mut uniforms: Vec<BlendUniform> = Vec::new();
                    uniforms.push(BlendUniform::HdrPq(true));
                    uniforms.push(BlendUniform::RefLumScale(lum));
                    // Uniform values persist in the program object; reset the scRGB flag that
                    // draws of scRGB surfaces set.
                    uniforms.push(BlendUniform::Scrgb(false));
                    assert(uniforms@ =~= hdr_override(program, lum).uniforms);
                    renderer.tex_program = Some(TexProgramOverride { program, uniforms });
                    false
                },
                None => true,
            }
        },
        None => {
            renderer.tex_program = None;
            renderer.solid_color_scale = None;
            false
        },
    }
}

impl ContentColor {
    /// The override in force during a draw of the content, on a frame with the override `frame`.
    pub open spec fn adjusted(self, frame: Option<OverrideView>) -> Option<OverrideView> {
        match self {
            ContentColor::Sdr => frame,
            ContentColor::BlendSpace => None,
            ContentColor::Scrgb => match frame {
                Some(tex_program) => Some(
                    OverrideView {
                        uniforms: tex_program.uniforms.push(BlendUniform::Scrgb(true)),
                        ..tex_program
                    },
                ),
                None => None,
            },
        }
    }

    /// Whether drawing the content calls for another override than the frame's.
    pub open spec fn adjusts(self, frame: Option<TexProgramOverride>) -> bool {
        self != ContentColor::Sdr && frame is Some
    }

    /// What is put aside of the frame's override for a draw of the content.
    pub open spec fn saves(self, frame: Option<TexProgramOverride>) -> Option<
        Option<TexProgramOverride>,
    > {
        if self.adjusts(frame) {
            Some(frame)
        } else {
            None
        }
    }
}

/// The frame's override after what was put aside is put back.
pub open spec fn restored(
    frame: Option<TexProgramOverride>,
    saved: Option<Option<TexProgramOverride>>,
) -> Option<TexProgramOverride> {
    match saved {
        Some(previous) => previous,
        None => frame,
    }
}

/// Adjusts the frame's default-texture-program override for a draw of the given content,
/// returning the previous override to restore afterwards (`None`: nothing was changed).
///
/// Blend-space content suspends the override entirely (numeric passthrough); scRGB content
/// re-installs it with the `niri_scrgb` flag raised. On SDR frames there is no override and
/// nothing happens (like PQ content, scRGB then renders raw).
pub fn adjust_tex_program_for_content(
    frame: &mut Option<TexProgramOverride>,
    content: ContentColor,
) -> (saved: Option<Option<TexProgramOverride>>)
    ensures
        override_view(*final(frame)) == content.adjusted(override_view(*old(frame))),
        !content.adjusts(*old(frame)) ==> *final(frame) == *old(frame),
        saved == content.saves(*old(frame)),
{
    match content {
        ContentColor::Sdr => None,
        ContentColor::BlendSpace => {
            let saved = frame.take();
            if saved.is_some() {
                Some(saved)
            } else {
                None
            }
        },
        ContentColor::Scrgb => {
            let saved = frame.take();
            match &saved {
                Some(tex_program) => {
                    let mut uniforms = tex_program.uniforms.clone();
                    assert(uniforms@ =~= tex_program.uniforms@);
                    // Later uniforms win; this overrides the frame-wide niri_scrgb = 0.
                    uniforms.push(BlendUniform::Scrgb(true));
                    *frame = Some(TexProgramOverride { program: tex_program.program, uniforms });
                    Some(saved)
                },
                None => None,
            }
        },
    }
}

/// Puts back the override that [`adjust_tex_program_for_content`] saved.
pub fn restore_tex_program(
    frame: &mut Option<TexProgramOverride>,
    saved: Option<Option<TexProgramOverride>>,
)
    ensures
        *final(frame) == restored(*old(frame), saved),
{
    if let Some(previous) = saved {
        *frame = previous;
    }
}

/// A surface-tree render element that knows how its content relates to the output blend space
/// (from its committed image description).
///
/// For blend-space (PQ) content the frame-wide blend-space texture program is suspended around the
/// draw, so the client's PQ values pass through numerically, and underlying storage is delegated
/// so direct scanout keeps working. For scRGB content the frame program is swapped for one
/// applying the absolute scRGB encode, and direct scanout is prevented (the raw linear buffer must
/// not reach a PQ-signalled connector).
#[derive(Debug)]
pub struct BlendSurfaceRenderElement<E> {
    pub inner: E,
    pub content: ContentColor,
}

impl<E> BlendSurfaceRenderElement<E> {
    pub fn new(inner: E, content: ContentColor) -> (element: Self)
        ensures
            element.inner == inner,
            element.content == content,
    {
        Self { inner, content }
    }

    pub fn inner(&self) -> (inner: &E)
        ensures
            *inner == self.inner,
    {
        &self.inner
    }

    pub fn into_inner(self) -> (inner: E)
        ensures
            inner == self.inner,
    {
        self.inner
    }

    pub fn content(&self) -> (content: ContentColor)
        ensures
            content == self.content,
    {
        self.content
    }

    /// Draws the inner element by `draw_inner`, which is handed the frame's texture program
    /// override adjusted for the content, and hands back what it leaves of it together with its
    /// result. The frame's own override is in force again afterwards.
    pub fn draw<T, F: FnOnce(Option<TexProgramOverride>) -> (Option<TexProgramOverride>, T)>(
        &self,
        frame: Option<TexProgramOverride>,
        draw_inner: F,
    ) -> (drawn: (Option<TexProgramOverride>, T))
        requires
            forall|adjusted: Option<TexProgramOverride>|
                override_view(adjusted) == self.content.adjusted(override_view(frame))
                    ==> #[trigger] call_requires(draw_inner, (adjusted,)),
        ensures
            exists|adjusted: Option<TexProgramOverride>, out: (Option<TexProgramOverride>, T)| {
                &&& #[trigger] call_ensures(draw_inner, (adjusted,), out)
                &&& override_view(adjusted) == self.content.adjusted(override_view(frame))
                &&& !self.content.adjusts(frame) ==> adjusted == frame
                &&& drawn.0 == restored(out.0, self.content.saves(frame))
                &&& drawn.1 == out.1
            },
    {
        let mut current = frame;
        let saved = adjust_tex_program_for_content(&mut current, self.content);
        let out = draw_inner(current);
        assert(call_ensures(draw_inner, (current,), out));
        let (mut left, res) = out;
        restore_tex_program(&mut left, saved);
        (left, res)
    }

    /// The buffer of the inner element that may be scanned out directly, as `storage` has it.
    pub fn underlying_storage<S, F: FnOnce() -> Option<S>>(&self, storage: F) -> (scanout: Option<
        S,
    >)
        requires
            self.content != ContentColor::Scrgb ==> call_requires(storage, ()),
        ensures
            self.content == ContentColor::Scrgb ==> scanout is None,
            self.content != ContentColor::Scrgb ==> call_ensures(storage, (), scanout),
    {
        // scRGB buffers need the GL encode; their raw linear values must not be scanned out.
        if self.content == ContentColor::Scrgb {
            return None;
        }
        storage()
    }
}

} // verus!
