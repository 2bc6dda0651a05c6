//! The four passes of the effect and how they hang together.
//!
//! A frame runs the passes in one fixed order. Each reads one image and
//! draws into another:
//!
//! | pass            | reads  | draws into | target before drawing |
//! |-----------------|--------|------------|-----------------------|
//! | extract         | main   | source     | cleared               |
//! | horizontal blur | source | temp       | cleared               |
//! | vertical blur   | temp   | source     | cleared               |
//! | composite       | source | main       | kept, and added to    |
//!
//! The pipelines of the passes differ in the fragment entry point, and the
//! composite pipeline also in its blend.

use vstd::prelude::*;
use crate::descriptors::{
    additive_blend,
    quad_primitive,
    replace_blend,
    single_sample,
    spec_additive_blend,
    spec_quad_primitive,
    spec_replace_blend,
    spec_single_sample,
    Blend,
    ColorTarget,
    LoadPolicy,
    PipelineSpec,
    PipelineSpecView,
    PixelFormat,
    COLOR_WRITE_ALL,
};
use crate::geometry::{spec_vertex_attributes, vertex_layout, VERTEX_SIZE};
use crate::params::ExperimentalGlow;

verus! {

/// One of the passes of the effect.
#[derive(Clone, Copy, Debug, PartialEq, Eq, Structural)]
pub enum PassKind {
    /// Keeps what is bright enough to glow.
    Extract,
    /// Blurs along the rows.
    BlurHorizontal,
    /// Blurs along the columns.
    BlurVertical,
    /// Adds the blurred glow to the image.
    Composite,
}

/// One of the images that the passes read and draw into.
#[derive(Clone, Copy, Debug, PartialEq, Eq, Structural)]
pub enum Surface {
    /// The caller's image, which the effect is applied to.
    Main,
    /// The first offscreen surface of the effect.
    Source,
    /// The second offscreen surface of the effect.
    Temp,
}

/// The number of passes in a frame that runs the effect.
pub const PASS_COUNT: usize = 4;

/// The passes in the order in which a frame runs them.
pub open spec fn spec_pass_order() -> Seq<PassKind> {
    seq![
        PassKind::Extract,
        PassKind::BlurHorizontal,
        PassKind::BlurVertical,
        PassKind::Composite,
    ]
}

impl PassKind {
    /// The place of the pass in a frame, counted from zero.
    pub open spec fn spec_index(&self) -> int {
        match self {
            PassKind::Extract => 0,
            PassKind::BlurHorizontal => 1,
            PassKind::BlurVertical => 2,
            PassKind::Composite => 3,
        }
    }

    /// The image that the pass samples.
    pub open spec fn spec_input(&self) -> Surface {
        match self {
            PassKind::Extract => Surface::Main,
            PassKind::BlurHorizontal => Surface::Source,
            PassKind::BlurVertical => Surface::Temp,
            PassKind::Composite => Surface::Source,
        }
    }

    /// The image that the pass draws into.
    pub open spec fn spec_target(&self) -> Surface {
        match self {
            PassKind::Extract => Surface::Source,
            PassKind::BlurHorizontal => Surface::Temp,
            PassKind::BlurVertical => Surface::Source,
            PassKind::Composite => Surface::Main,
        }
    }

    /// What the pass does with its target before it draws: the caller's
    /// image is kept, an offscreen surface is cleared.
    pub open spec fn spec_load(&self) -> LoadPolicy {
        match self {
            PassKind::Composite => LoadPolicy::Load,
            _ => LoadPolicy::ClearBlack,
        }
    }

    /// How the pass combines what it draws with its target: the composite
    /// pass adds, every other pass overwrites.
    pub open spec fn spec_blend(&self) -> Blend {
        match self {
            PassKind::Composite => spec_additive_blend(),
            _ => spec_replace_blend(),
        }
    }

    /// The pass that follows this one in a frame, if any.
    pub open spec fn spec_next(&self) -> Option<PassKind> {
        match self {
            PassKind::Extract => Some(PassKind::BlurHorizontal),
            PassKind::BlurHorizontal => Some(PassKind::BlurVertical),
            PassKind::BlurVertical => Some(PassKind::Composite),
            PassKind::Composite => None,
        }
    }

    /// The entry point of the fragment stage of the pass.
    pub open spec fn spec_fragment_entry(&self) -> Seq<char> {
        match self {
            PassKind::Extract => "fs_extract"@,
            PassKind::BlurHorizontal => "fs_blur_h"@,
            PassKind::BlurVertical => "fs_blur_v"@,
            PassKind::Composite => "fs_composite"@,
        }
    }

    /// The first pass of a frame.
    pub fn first() -> (kind: PassKind)
        ensures
            kind == spec_pass_order()[0],
    {
        PassKind::Extract
    }

    /// The image that the pass samples.
    pub fn input(&self) -> (surface: Surface)
        ensures
            surface == self.spec_input(),
    {
        match self {
            PassKind::Extract => Surface::Main,
            PassKind::BlurHorizontal => Surface::Source,
            PassKind::BlurVertical => Surface::Temp,
            PassKind::Composite => Surface::Source,
        }
    }

    /// The image that the pass draws into.
    pub fn target(&self) -> (surface: Surface)
        ensures
            surface == self.spec_target(),
    {
        match self {
            PassKind::Extract => Surface::Source,
            PassKind::BlurHorizontal => Surface::Temp,
            PassKind::BlurVertical => Surface::Source,
            PassKind::Composite => Surface::Main,
        }
    }

    /// What the pass does with its target before it draws.
    pub fn load(&self) -> (policy: LoadPolicy)
        ensures
            policy == self.spec_load(),
    {
        match self {
            PassKind::Composite => LoadPolicy::Load,
            _ => LoadPolicy::ClearBlack,
        }
    }

    /// How the pass combines what it draws with its target.
    pub fn blend(&self) -> (blend: Blend)
        ensures
            blend == self.spec_blend(),
    {
        match self {
            PassKind::Composite => additive_blend(),
            _ => replace_blend(),
        }
    }

    /// The pass that follows this one in a frame, if any.
    pub fn next(&self) -> (following: Option<PassKind>)
        ensures
            following == self.spec_next(),
    {
        match self {
            PassKind::Extract => Some(PassKind::BlurHorizontal),
            PassKind::BlurHorizontal => Some(PassKind::BlurVertical),
            PassKind::BlurVertical => Some(PassKind::Composite),
            PassKind::Composite => None,
        }
    }

    /// The entry point of the fragment stage of the pass.
    pub fn fragment_entry(&self) -> (entry: &'static str)
        ensures
            entry@ == self.spec_fragment_entry(),
    {
        match self {
            PassKind::Extract => "fs_extract",
            PassKind::BlurHorizontal => "fs_blur_h",
            PassKind::BlurVertical => "fs_blur_v",
            PassKind::Composite => "fs_composite",
        }
    }

    /// The debug label of the pipeline of the pass.
    pub fn pipeline_label(&self) -> (label: &'static str)
        ensures
            label@ == match self {
                PassKind::Extract => "Glow Extract Pipeline"@,
                PassKind::BlurHorizontal => "Glow Blur H Pipeline"@,
                PassKind::BlurVertical => "Glow Blur V Pipeline"@,
                PassKind::Composite => "Glow Composite Pipeline"@,
            },
    {
        match self {
            PassKind::Extract => "Glow Extract Pipeline",
            PassKind::BlurHorizontal => "Glow Blur H Pipeline",
            PassKind::BlurVertical => "Glow Blur V Pipeline",
            PassKind::Composite => "Glow Composite Pipeline",
        }
    }

    /// The debug label of the layout of the pipeline of the pass.
    pub fn layout_label(&self) -> (label: &'static str)
        ensures
            label@ == match self {
                PassKind::Extract => "Glow Extract Pipeline Layout"@,
                PassKind::BlurHorizontal => "Glow Blur H Pipeline Layout"@,
                PassKind::BlurVertical => "Glow Blur V Pipeline Layout"@,
                PassKind::Composite => "Glow Composite Pipeline Layout"@,
            },
    {
        match self {
            PassKind::Extract => "Glow Extract Pipeline Layout",
            PassKind::BlurHorizontal => "Glow Blur H Pipeline Layout",
            PassKind::BlurVertical => "Glow Blur V Pipeline Layout",
            PassKind::Composite => "Glow Composite Pipeline Layout",
        }
    }

    /// The debug label of the render pass.
    pub fn pass_label(&self) -> (label: &'static str)
        ensures
            label@ == match self {
                PassKind::Extract => "Glow Extract Pass"@,
                PassKind::BlurHorizontal => "Glow Blur H Pass"@,
                PassKind::BlurVertical => "Glow Blur V Pass"@,
                PassKind::Composite => "Glow Composite Pass"@,
            },
    {
        match self {
            PassKind::Extract => "Glow Extract Pass",
            PassKind::BlurHorizontal => "Glow Blur H Pass",
            PassKind::BlurVertical => "Glow Blur V Pass",
            PassKind::Composite => "Glow Composite Pass",
        }
    }

    /// The debug label of the bind group that holds the input of the pass.
    pub fn input_label(&self) -> (label: &'static str)
        ensures
            label@ == match self {
                PassKind::Extract => "Main Texture Bind Group"@,
                PassKind::BlurHorizontal => "Glow Src Bind Group"@,
                PassKind::BlurVertical => "Glow Tmp Bind Group"@,
                PassKind::Composite => "Glow Final Bind Group"@,
            },
    {
        match self {
            PassKind::Extract => "Main Texture Bind Group",
            PassKind::BlurHorizontal => "Glow Src Bind Group",
            PassKind::BlurVertical => "Glow Tmp Bind Group",
            PassKind::Composite => "Glow Final Bind Group",
        }
    }
}

/// The entry point of the vertex stage, which all passes share.
pub open spec fn spec_vertex_entry() -> Seq<char> {
    "vs_fullscreen"@
}

/// The entry point of the vertex stage, which all passes share.
pub fn vertex_entry() -> (entry: &'static str)
    ensures
        entry@ == spec_vertex_entry(),
{
    "vs_fullscreen"
}

/// The pipeline of a pass that draws into a target of the given format.
///
/// The passes share everything but the fragment entry point and the blend.
pub open spec fn spec_pipeline(kind: PassKind, format: PixelFormat) -> PipelineSpecView {
    PipelineSpecView {
        vertex_entry: spec_vertex_entry(),
        fragment_entry: kind.spec_fragment_entry(),
        vertex_stride: VERTEX_SIZE,
        attributes: spec_vertex_attributes(),
        target: ColorTarget { format, blend: kind.spec_blend(), write_mask: COLOR_WRITE_ALL },
        primitive: spec_quad_primitive(),
        multisample: spec_single_sample(),
    }
}

/// The pipeline of a pass that draws into a target of the given format.
pub fn pipeline_spec(kind: PassKind, format: PixelFormat) -> (spec: PipelineSpec)
    ensures
        spec@ == spec_pipeline(kind, format),
{
    let layout = vertex_layout();
    PipelineSpec {
        vertex_entry: vertex_entry(),
        fragment_entry: kind.fragment_entry(),
        vertex_stride: layout.array_stride,
        attributes: layout.attributes,
        target: ColorTarget { format, blend: kind.blend(), write_mask: COLOR_WRITE_ALL },
        primitive: quad_primitive(),
        multisample: single_sample(),
    }
}

/// The passes that a frame with the given settings runs: all four in order
/// when the effect is active, none when it is not.
pub open spec fn spec_frame_passes(config: ExperimentalGlow) -> Seq<PassKind> {
    if config.spec_is_active() {
        spec_pass_order()
    } else {
        Seq::empty()
    }
}

/// The passes that a frame with the given settings runs.
pub fn frame_passes(config: &ExperimentalGlow) -> (passes: Vec<PassKind>)
    ensures
        passes@ == spec_frame_passes(*config),
{
    let mut passes: Vec<PassKind> = Vec::new();
    if !config.is_active() {
        return passes;
    }
    let mut stage: Option<PassKind> = Some(PassKind::first());
    while stage.is_some()
        invariant
            passes@.len() <= PASS_COUNT,
            passes@ == spec_pass_order().take(passes@.len() as int),
            stage == if passes@.len() < PASS_COUNT {
                Some(spec_pass_order()[passes@.len() as int])
            } else {
                None
            },
        decreases PASS_COUNT - passes@.len(),
    {
        let kind: PassKind = stage.unwrap();
        let ghost before = passes@;
        passes.push(kind);
        stage = kind.next();
        assert(passes@ =~= spec_pass_order().take(before.len() as int + 1));
    }
    assert(spec_pass_order().take(PASS_COUNT as int) =~= spec_pass_order());
    passes
}

/// A frame runs each pass once, and `next` walks them in order.
pub proof fn lemma_pass_order()
    ensures
        spec_pass_order().len() == PASS_COUNT,
        forall|kind: PassKind| #[trigger]
            spec_pass_order()[kind.spec_index()] == kind && 0 <= kind.spec_index() < PASS_COUNT,
        forall|kind: PassKind| #[trigger]
            kind.spec_next() == if kind.spec_index() + 1 < PASS_COUNT {
                Some(spec_pass_order()[kind.spec_index() + 1])
            } else {
                None
            },
{
}

/// No pass reads the image it draws into, and each pass touches exactly
/// the images of its row in the table at the head of this file.
///
/// The extract pass reads the caller's image and neither offscreen
/// surface. The horizontal blur reads the source surface and draws into the
/// temp surface; the vertical blur does the reverse. The composite pass
/// reads the source surface, and it alone draws into the caller's image.
pub proof fn lemma_pass_isolation(kind: PassKind)
    ensures
        kind.spec_input() != kind.spec_target(),
        kind == PassKind::Extract ==> kind.spec_input() == Surface::Main && kind.spec_target()
            == Surface::Source,
        kind == PassKind::BlurHorizontal ==> kind.spec_input() == Surface::Source
            && kind.spec_target() == Surface::Temp,
        kind == PassKind::BlurVertical ==> kind.spec_input() == Surface::Temp && kind.spec_target()
            == Surface::Source,
        kind == PassKind::Composite ==> kind.spec_input() == Surface::Source && kind.spec_target()
            == Surface::Main,
        kind.spec_target() == Surface::Main <==> kind == PassKind::Composite,
        kind.spec_input() == Surface::Main <==> kind == PassKind::Extract,
{
}

/// Each pass after the first reads what the pass before it drew, and the
/// first reads the image as the caller rendered it.
pub proof fn lemma_passes_chain(kind: PassKind)
    ensures
        kind.spec_index() == 0 ==> kind.spec_input() == Surface::Main,
        kind.spec_next() matches Some(following) ==> following.spec_input() == kind.spec_target(),
{
}

/// An offscreen surface is cleared by every pass that draws into it; the
/// caller's image is never cleared.
pub proof fn lemma_load_policy(kind: PassKind)
    ensures
        kind.spec_target() != Surface::Main <==> kind.spec_load() == LoadPolicy::ClearBlack,
        kind.spec_target() == Surface::Main <==> kind.spec_load() == LoadPolicy::Load,
{
}

/// The composite pipeline adds source and destination with factors of one,
/// for color and for alpha; every other pipeline replaces the destination.
pub proof fn lemma_blend_by_pass(kind: PassKind, format: PixelFormat)
    ensures
        spec_pipeline(kind, format).target.blend == kind.spec_blend(),
        kind == PassKind::Composite ==> kind.spec_blend() == spec_additive_blend(),
        kind != PassKind::Composite ==> kind.spec_blend() == spec_replace_blend(),
        spec_additive_blend() != spec_replace_blend(),
        kind.spec_blend() == spec_additive_blend() <==> kind.spec_load() == LoadPolicy::Load,
{
}

/// The pipelines of two passes differ in nothing but the fragment entry
/// point and the blend.
pub proof fn lemma_pipelines_share_template(a: PassKind, b: PassKind, format: PixelFormat)
    ensures
        spec_pipeline(a, format) == (PipelineSpecView {
            fragment_entry: a.spec_fragment_entry(),
            target: ColorTarget { blend: a.spec_blend(), ..spec_pipeline(b, format).target },
            ..spec_pipeline(b, format)
        }),
{
}

/// A frame with the effect switched off, or with a strength or a radius
/// that is at most zero, runs no pass; every other frame runs all four.
pub proof fn lemma_inactive_frame_is_empty(config: ExperimentalGlow)
    ensures
        !config.spec_is_active() <==> spec_frame_passes(config).len() == 0,
        config.spec_is_active() <==> spec_frame_passes(config) == spec_pass_order(),
        !config.enabled ==> spec_frame_passes(config).len() == 0,
        crate::params::spec_at_most_zero(config.strength) ==> spec_frame_passes(config).len() == 0,
        crate::params::spec_at_most_zero(config.radius) ==> spec_frame_passes(config).len() == 0,
{
}

} // verus!
