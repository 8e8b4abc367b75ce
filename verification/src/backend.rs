//! What the graphics backend draws of a frame: which layers are drawn and,
//! for each, which of its pipelines run.
use vstd::prelude::*;

verus! {

/// The character drawn inside a checked checkbox.
pub const CHECKMARK_ICON: char = '\u{2713}';

/// The character drawn as the arrow of a pick list.
pub const ARROW_DOWN_ICON: char = '\u{25bc}';

/// A rectangle in physical pixels.
#[derive(Clone, Copy, Debug, PartialEq, Eq, Structural)]
pub struct Rectangle {
    pub x: u32,
    pub y: u32,
    pub width: u32,
    pub height: u32,
}

/// A layer of a frame: its clip bounds, already scaled to physical pixels
/// and snapped to whole pixels, and how many primitives of each kind it holds.
#[derive(Clone, Copy, Debug, PartialEq, Eq, Structural)]
pub struct LayerContent {
    pub bounds: Rectangle,
    pub quads: usize,
    pub meshes: usize,
    pub images: usize,
    pub text: usize,
}

/// The pipelines that draw a layer, clipped to its bounds. They run in the
/// order that [`FlushPlan::draws`] gives: quads, meshes, images, text.
#[derive(Clone, Copy, Debug, PartialEq, Eq, Structural)]
pub struct FlushPlan {
    /// The quad pipeline draws the layer's quads.
    pub quads: bool,
    /// The triangle pipeline draws the layer's meshes.
    pub meshes: bool,
    /// The image pipeline draws the layer's images.
    pub images: bool,
    /// The text pipeline draws the layer's text, over everything else.
    pub text: bool,
}

/// One pipeline run of a layer.
#[derive(Clone, Copy, Debug, PartialEq, Eq, Structural)]
pub enum Draw {
    Quads,
    Meshes,
    Images,
    Text,
}

/// One step of presenting a frame.
#[derive(Clone, Copy, Debug, PartialEq, Eq, Structural)]
pub enum FrameStep {
    /// A layer whose bounds hold no whole pixel is not drawn.
    Skip,
    /// A layer is drawn as the plan says.
    Flush(FlushPlan),
    /// The image cache drops what the frame did not use.
    TrimImageCache,
}

/// How a layer is flushed: not at all when its bounds hold no whole pixel;
/// otherwise each pipeline runs when the layer holds primitives of its kind,
/// the image pipeline only where images are enabled.
pub open spec fn flush_spec(layer: LayerContent, images_enabled: bool) -> Option<FlushPlan> {
    if layer.bounds.width < 1 || layer.bounds.height < 1 {
        None
    } else {
        Some(
            FlushPlan {
                quads: layer.quads > 0,
                meshes: layer.meshes > 0,
                images: images_enabled && layer.images > 0,
                text: layer.text > 0,
            },
        )
    }
}

/// The draws of a plan, in the order they run: quads, then meshes, then
/// images, then text, each only where the plan has it.
pub open spec fn draws_spec(plan: FlushPlan) -> Seq<Draw> {
    (if plan.quads { seq![Draw::Quads] } else { Seq::empty() })
        + (if plan.meshes { seq![Draw::Meshes] } else { Seq::empty() })
        + (if plan.images { seq![Draw::Images] } else { Seq::empty() })
        + (if plan.text { seq![Draw::Text] } else { Seq::empty() })
}

/// The frame step of one layer.
pub open spec fn flush_step(layer: LayerContent, images_enabled: bool) -> FrameStep {
    match flush_spec(layer, images_enabled) {
        Some(plan) => FrameStep::Flush(plan),
        None => FrameStep::Skip,
    }
}

/// The steps of presenting a frame: each layer in order, the overlay last,
/// and then, where images are enabled, one trim of the image cache.
pub open spec fn present_spec(layers: Seq<LayerContent>, overlay: LayerContent, images_enabled: bool) -> Seq<FrameStep> {
    layers.push(overlay).map_values(|l: LayerContent| flush_step(l, images_enabled)) + if images_enabled {
        seq![FrameStep::TrimImageCache]
    } else {
        Seq::empty()
    }
}

impl FlushPlan {
    /// The draws of the plan, in the order they run.
    pub fn draws(&self) -> (d: Vec<Draw>)
        ensures
            d@ == draws_spec(*self),
    {
        let mut d: Vec<Draw> = Vec::new();
        if self.quads {
            d.push(Draw::Quads);
        }
        if self.meshes {
            d.push(Draw::Meshes);
        }
        if self.images {
            d.push(Draw::Images);
        }
        if self.text {
            d.push(Draw::Text);
        }
        assert(d@ =~= draws_spec(*self));
        d
    }
}

/// Decides how one layer is flushed.
pub fn flush(layer: &LayerContent, images_enabled: bool) -> (plan: Option<FlushPlan>)
    ensures
        plan == flush_spec(*layer, images_enabled),
        plan is Some <==> (layer.bounds.width >= 1 && layer.bounds.height >= 1),
        plan matches Some(p) ==> {
            &&& p.quads == (layer.quads > 0)
            &&& p.meshes == (layer.meshes > 0)
            &&& p.images == (images_enabled && layer.images > 0)
            &&& p.text == (layer.text > 0)
        },
{
    if layer.bounds.width < 1 || layer.bounds.height < 1 {
        return None;
    }
    Some(
        FlushPlan {
            quads: layer.quads != 0,
            meshes: layer.meshes != 0,
            images: images_enabled && layer.images != 0,
            text: layer.text != 0,
        },
    )
}

fn step_of(layer: &LayerContent, images_enabled: bool) -> (step: FrameStep)
    ensures
        step == flush_step(*layer, images_enabled),
{
    match flush(layer, images_enabled) {
        Some(plan) => FrameStep::Flush(plan),
        None => FrameStep::Skip,
    }
}

/// Decides how a frame is presented: the layers generated from its
/// primitives are flushed in order, the overlay layer on top of them, and
/// where images are enabled the image cache is trimmed once at the end.
pub fn present(layers: &Vec<LayerContent>, overlay: &LayerContent, images_enabled: bool) -> (steps: Vec<FrameStep>)
    ensures
        steps@ == present_spec(layers@, *overlay, images_enabled),
        forall|i: int|
            0 <= i < layers@.len() ==> #[trigger] steps@[i] == match flush_spec(layers@[i], images_enabled) {
                Some(plan) => FrameStep::Flush(plan),
                None => FrameStep::Skip,
            },
        steps@[layers@.len() as int] == match flush_spec(*overlay, images_enabled) {
            Some(plan) => FrameStep::Flush(plan),
            None => FrameStep::Skip,
        },
{
    let mut steps: Vec<FrameStep> = Vec::new();
    let mut i: usize = 0;
    while i < layers.len()
        invariant
            i <= layers.len(),
            steps@.len() == i,
            forall|j: int| 0 <= j < i ==> steps@[j] == flush_step(layers@[j], images_enabled),
        decreases layers.len() - i,
    {
        steps.push(step_of(&layers[i], images_enabled));
        i = i + 1;
    }
    steps.push(step_of(overlay, images_enabled));
    if images_enabled {
        steps.push(FrameStep::TrimImageCache);
    }
    assert(steps@ =~= present_spec(layers@, *overlay, images_enabled));
    proof {
        lemma_overlay_on_top(layers@, *overlay, images_enabled);
    }
    steps
}

/// The overlay is flushed after every layer of the frame; the image cache is
/// trimmed exactly once, as the last step, when images are enabled, and
/// never otherwise.
pub proof fn lemma_overlay_on_top(layers: Seq<LayerContent>, overlay: LayerContent, images_enabled: bool)
    ensures
        ({
            let steps = present_spec(layers, overlay, images_enabled);
            &&& steps.len() == layers.len() + 1 + if images_enabled { 1int } else { 0int }
            &&& steps[layers.len() as int] == flush_step(overlay, images_enabled)
            &&& forall|i: int| 0 <= i < layers.len() ==> #[trigger] steps[i] == flush_step(layers[i], images_enabled)
            &&& forall|i: int| 0 <= i <= layers.len() ==> #[trigger] steps[i] != FrameStep::TrimImageCache
            &&& images_enabled ==> steps.last() == FrameStep::TrimImageCache
        }),
{
    let steps = present_spec(layers, overlay, images_enabled);
    let flushed = layers.push(overlay).map_values(|l: LayerContent| flush_step(l, images_enabled));
    assert forall|i: int| 0 <= i <= layers.len() implies #[trigger] steps[i] != FrameStep::TrimImageCache by {
        assert(steps[i] == flushed[i]);
        assert(layers.push(overlay)[i] == if i < layers.len() { layers[i] } else { overlay });
    }
    assert(steps[layers.len() as int] == flushed[layers.len() as int]);
    assert(layers.push(overlay)[layers.len() as int] == overlay);
    assert forall|i: int| 0 <= i < layers.len() implies #[trigger] steps[i] == flush_step(layers[i], images_enabled) by {
        assert(steps[i] == flushed[i]);
        assert(layers.push(overlay)[i] == layers[i]);
    }
}

/// A pipeline only runs for a layer that holds primitives of its kind and
/// bounds of at least one whole pixel, and a layer's text is drawn after
/// everything else of the layer.
pub proof fn lemma_pipelines_need_content(layer: LayerContent, images_enabled: bool)
    ensures
        flush_spec(layer, images_enabled) matches Some(plan) ==> {
            &&& layer.bounds.width >= 1 && layer.bounds.height >= 1
            &&& plan.quads <==> layer.quads > 0
            &&& plan.meshes <==> layer.meshes > 0
            &&& plan.images ==> images_enabled && layer.images > 0
            &&& plan.text <==> layer.text > 0
            &&& plan.text ==> draws_spec(plan).last() == Draw::Text
            &&& plan.quads ==> draws_spec(plan)[0] == Draw::Quads
        },
{
}

/// Each pipeline of a layer that holds a whole pixel runs exactly when the
/// layer holds primitives of its kind (images only where images are
/// enabled), whatever else the layer holds; a layer is skipped exactly when
/// its bounds hold no whole pixel.
pub proof fn lemma_pipelines_independent(layer: LayerContent, images_enabled: bool)
    ensures
        flush_spec(layer, images_enabled) is Some <==> (layer.bounds.width >= 1 && layer.bounds.height >= 1),
        flush_spec(layer, images_enabled) matches Some(plan) ==> {
            &&& plan.quads <==> layer.quads > 0
            &&& plan.meshes <==> layer.meshes > 0
            &&& plan.images <==> (images_enabled && layer.images > 0)
            &&& plan.text <==> layer.text > 0
        },
{
}

/// Every layer of a frame is flushed with its own plan at its own place:
/// the step of layer `i` is the flush of that layer's plan, it is skipped
/// only when the layer holds no whole pixel, and it draws every kind of
/// primitive the layer holds.
pub proof fn lemma_every_layer_flushed(layers: Seq<LayerContent>, overlay: LayerContent, images_enabled: bool, i: int)
    requires
        0 <= i < layers.len(),
    ensures
        ({
            let steps = present_spec(layers, overlay, images_enabled);
            let layer = layers[i];
            &&& (steps[i] == FrameStep::Skip <==> !(layer.bounds.width >= 1 && layer.bounds.height >= 1))
            &&& flush_spec(layer, images_enabled) matches Some(plan) ==> steps[i] == FrameStep::Flush(plan)
            &&& steps[i] matches FrameStep::Flush(plan) ==> {
                &&& plan.quads <==> layer.quads > 0
                &&& plan.meshes <==> layer.meshes > 0
                &&& plan.images <==> (images_enabled && layer.images > 0)
                &&& plan.text <==> layer.text > 0
            }
        }),
{
    lemma_overlay_on_top(layers, overlay, images_enabled);
}

} // verus!
