//! Pose-graph nodes and their evaluation.
//!
//! The pose graph is an arena of nodes: a node either passes the current pose
//! of one animation through, or combines the outputs of other nodes, each
//! scaled by a weight that is a constant or a named Weight parameter. The
//! graph must be acyclic; that is guaranteed here by construction order —
//! a combiner may only reference nodes that were added before it, so every
//! edge points to a strictly smaller arena index.

use crate::animation::AnimationContainer;
use crate::params::{Parameter, ParameterContainer};
use crate::pool::{handle_valid, Handle, Pool, FIRST_GENERATION};
use crate::pose::{clone_pose, LayerView, Pose, PoseView};
use crate::scalar::Scalar;
use vstd::prelude::*;

verus! {

/// Node that passes one animation's current pose through.
#[derive(Clone, Copy, Debug, PartialEq, Eq, Structural)]
pub struct PlayAnimation {
    pub animation: Handle,
}

impl View for PlayAnimation {
    type V = Handle;

    open spec fn view(&self) -> Handle {
        self.animation
    }
}

impl PlayAnimation {
    /// Creates a pass-through node for the given animation handle.
    pub fn new(animation: Handle) -> (r: PlayAnimation)
        ensures
            r@ == animation,
    {
        PlayAnimation { animation }
    }
}

/// How one blend input's weight is obtained.
#[derive(Debug, PartialEq)]
pub enum PoseWeight {
    /// A fixed scalar. Negative values are accepted but meaningless.
    Constant(Scalar),
    /// The named Weight parameter; zero when the name is unset or holds a
    /// Rule.
    Parameter(String),
}

/// Mathematical form of [`PoseWeight`].
pub enum PoseWeightView {
    Constant(Scalar),
    Parameter(Seq<char>),
}

impl View for PoseWeight {
    type V = PoseWeightView;

    open spec fn view(&self) -> PoseWeightView {
        match self {
            PoseWeight::Constant(c) => PoseWeightView::Constant(*c),
            PoseWeight::Parameter(name) => PoseWeightView::Parameter(name@),
        }
    }
}

/// The scalar a weight resolves to under a parameter table: the constant
/// itself, the named Weight parameter's value, or zero when the name is
/// missing or bound to the wrong variant.
pub open spec fn resolve_weight(params: Map<Seq<char>, Parameter>, w: PoseWeightView) -> Scalar {
    match w {
        PoseWeightView::Constant(c) => c,
        PoseWeightView::Parameter(name) => {
            if params.contains_key(name) {
                match params[name] {
                    Parameter::Weight(s) => s,
                    Parameter::Rule(_) => Scalar::spec_zero(),
                }
            } else {
                Scalar::spec_zero()
            }
        },
    }
}

impl PoseWeight {
    /// Resolves this weight against the table, with the zero default for a
    /// missing or mistyped parameter.
    pub fn resolve(&self, params: &ParameterContainer) -> (r: Scalar)
        ensures
            r == resolve_weight(params@, self@),
    {
        match self {
            PoseWeight::Constant(c) => *c,
            PoseWeight::Parameter(name) => match params.get(name.as_str()) {
                Some(Parameter::Weight(s)) => s,
                _ => Scalar::zero(),
            },
        }
    }
}

/// One weighted input of a combiner node.
#[derive(Debug, PartialEq)]
pub struct BlendPose {
    weight: PoseWeight,
    pose_source: Handle,
}

/// Mathematical form of [`BlendPose`].
pub struct BlendPoseView {
    pub weight: PoseWeightView,
    pub source: Handle,
}

impl View for BlendPose {
    type V = BlendPoseView;

    closed spec fn view(&self) -> BlendPoseView {
        BlendPoseView { weight: self.weight@, source: self.pose_source }
    }
}

impl BlendPose {
    /// A blend input with the given weight and source node.
    pub fn new(weight: PoseWeight, pose_source: Handle) -> (r: BlendPose)
        ensures
            r@.weight == weight@,
            r@.source == pose_source,
    {
        BlendPose { weight, pose_source }
    }

    /// A blend input with a constant weight, which should be positive.
    pub fn with_constant_weight(weight: Scalar, pose_source: Handle) -> (r: BlendPose)
        ensures
            r@.weight == PoseWeightView::Constant(weight),
            r@.source == pose_source,
    {
        BlendPose { weight: PoseWeight::Constant(weight), pose_source }
    }

    /// A blend input weighted by the named Weight parameter.
    pub fn with_param_weight(param_id: &str, pose_source: Handle) -> (r: BlendPose)
        ensures
            r@.weight == PoseWeightView::Parameter(param_id@),
            r@.source == pose_source,
    {
        BlendPose { weight: PoseWeight::Parameter(param_id.to_owned()), pose_source }
    }
}

/// Combiner node: folds each input, in list order, into one output pose.
#[derive(Debug, PartialEq)]
pub struct BlendAnimation {
    pose_sources: Vec<BlendPose>,
}

impl View for BlendAnimation {
    type V = Seq<BlendPoseView>;

    closed spec fn view(&self) -> Seq<BlendPoseView> {
        Seq::new(self.pose_sources@.len(), |i: int| self.pose_sources@[i]@)
    }
}

impl BlendAnimation {
    /// A combiner over the given inputs, blended in list order.
    pub fn new(poses: Vec<BlendPose>) -> (r: BlendAnimation)
        ensures
            r@ == Seq::new(poses@.len(), |i: int| poses@[i]@),
    {
        BlendAnimation { pose_sources: poses }
    }
}

/// A pose-graph node.
#[derive(Debug, PartialEq)]
pub enum PoseNode {
    /// Passes one animation's current pose through.
    PlayAnimation(PlayAnimation),
    /// Weighted combination of other nodes' outputs.
    BlendAnimations(BlendAnimation),
}

/// Mathematical form of [`PoseNode`].
pub enum PoseNodeView {
    Play(Handle),
    Blend(Seq<BlendPoseView>),
}

impl View for PoseNode {
    type V = PoseNodeView;

    open spec fn view(&self) -> PoseNodeView {
        match self {
            PoseNode::PlayAnimation(p) => PoseNodeView::Play(p.animation),
            PoseNode::BlendAnimations(b) => PoseNodeView::Blend(b@),
        }
    }
}

impl PoseNode {
    /// A node that plays one animation.
    pub fn make_play_animation(animation: Handle) -> (r: PoseNode)
        ensures
            r@ == PoseNodeView::Play(animation),
    {
        PoseNode::PlayAnimation(PlayAnimation::new(animation))
    }

    /// A node that blends several inputs.
    pub fn make_blend_animations(poses: Vec<BlendPose>) -> (r: PoseNode)
        ensures
            r@ == PoseNodeView::Blend(Seq::new(poses@.len(), |i: int| poses@[i]@)),
    {
        PoseNode::BlendAnimations(BlendAnimation::new(poses))
    }
}

/// Every combiner edge points to a live node added earlier, so the graph is
/// acyclic and evaluation terminates.
pub open spec fn blend_edge_wf(b: BlendPoseView, len: int, i: int) -> bool {
    handle_valid(b.source, len) && (b.source.index as int) < i
}

/// All edges of one combiner's input list are well-formed.
pub open spec fn blends_wf(blends: Seq<BlendPoseView>, len: int, i: int) -> bool {
    forall|k: int| 0 <= k < blends.len() ==> #[trigger] blend_edge_wf(blends[k], len, i)
}

pub open spec fn node_wf_at(nodes: Seq<PoseNodeView>, i: int) -> bool {
    match nodes[i] {
        PoseNodeView::Play(_) => true,
        PoseNodeView::Blend(blends) => blends_wf(blends, nodes.len() as int, i),
    }
}

/// Structural well-formedness of the whole node arena.
pub open spec fn graph_wf(nodes: Seq<PoseNodeView>) -> bool {
    forall|i: int| 0 <= i < nodes.len() ==> #[trigger] node_wf_at(nodes, i)
}

/// Every pass-through node names a live animation of the container.
pub open spec fn graph_anims_wf(nodes: Seq<PoseNodeView>, anims_len: int) -> bool {
    forall|i: int| 0 <= i < nodes.len() ==> match #[trigger] nodes[i] {
        PoseNodeView::Play(a) => handle_valid(a, anims_len),
        PoseNodeView::Blend(_) => true,
    }
}

/// The layers accumulated after folding the first `k` inputs of a combiner at
/// index `i`, in list order; zero-weight folds add nothing.
pub open spec fn blend_layers_upto(
    nodes: Seq<PoseNodeView>,
    params: Map<Seq<char>, Parameter>,
    anims: Seq<PoseView>,
    blends: Seq<BlendPoseView>,
    i: int,
    k: int,
) -> Seq<LayerView>
    decreases i, 0int, k,
{
    if k <= 0 || i < 0 {
        Seq::empty()
    } else {
        let prev = blend_layers_upto(nodes, params, anims, blends, i, k - 1);
        let b = blends[k - 1];
        let w = resolve_weight(params, b.weight);
        let child = if b.source.index < i {
            eval_node_at(nodes, params, anims, b.source.index as int)
        } else {
            PoseView::neutral()
        };
        if w.is_zero() {
            prev
        } else {
            prev.push(LayerView { weight: w, pose: child })
        }
    }
}

/// The pose a node evaluates to: an animation's current pose for a
/// pass-through node, the ordered weighted fold of the children for a
/// combiner.
pub open spec fn eval_node_at(
    nodes: Seq<PoseNodeView>,
    params: Map<Seq<char>, Parameter>,
    anims: Seq<PoseView>,
    i: int,
) -> PoseView
    decreases i, 1int, 0int,
{
    if 0 <= i < nodes.len() {
        match nodes[i] {
            PoseNodeView::Play(a) => if handle_valid(a, anims.len() as int) {
                anims[a.index as int]
            } else {
                PoseView::neutral()
            },
            PoseNodeView::Blend(blends) => PoseView {
                sample: None,
                layers: blend_layers_upto(nodes, params, anims, blends, i, blends.len() as int),
            },
        }
    } else {
        PoseView::neutral()
    }
}

/// Evaluates the node `h` refers to. A combiner resets a local accumulator,
/// then folds each input in list order: it resolves the input's weight,
/// recursively evaluates its child, and blends the child in at that weight.
pub fn eval_node(
    nodes: &Pool<PoseNode>,
    params: &ParameterContainer,
    animations: &AnimationContainer,
    h: Handle,
) -> (r: Pose)
    requires
        graph_wf(nodes@),
        graph_anims_wf(nodes@, animations@.len() as int),
        handle_valid(h, nodes@.len() as int),
    ensures
        r@ == eval_node_at(nodes@, params@, animations@, h.index as int),
    decreases h.index,
{
    let node = nodes.at(h.index as usize);
    match node {
        PoseNode::PlayAnimation(p) => {
            proof {
                assert(graph_anims_wf(nodes@, animations@.len() as int));
                assert(nodes@[h.index as int] is Play);
            }
            let src = animations.pose_of(p.animation);
            clone_pose(src)
        },
        PoseNode::BlendAnimations(b) => {
            let mut output = Pose::neutral();
            let n = b.pose_sources.len();
            let ghost blends = b@;
            #[verifier::loop_isolation(false)]
            for k in 0..n
                invariant
                    output@.sample is None,
                    output@.layers == blend_layers_upto(
                        nodes@,
                        params@,
                        animations@,
                        blends,
                        h.index as int,
                        k as int,
                    ),
            {
                proof {
                    assert(node_wf_at(nodes@, h.index as int));
                    assert(blend_edge_wf(blends[k as int], nodes@.len() as int, h.index as int));
                }
                let bp = &b.pose_sources[k];
                let weight = bp.weight.resolve(params);
                let child = eval_node(nodes, params, animations, bp.pose_source);
                output.blend_with(&child, weight);
            }
            proof {
                assert(output@ =~= eval_node_at(nodes@, params@, animations@, h.index as int));
            }
            output
        },
    }
}

/// Runtime check of [`graph_wf`]: lets a caller that assembled a graph by
/// hand confirm, before evaluating, that every combiner edge points to an
/// earlier live node.
pub fn check_graph_wf(nodes: &Pool<PoseNode>) -> (r: bool)
    ensures
        r == graph_wf(nodes@),
{
    let n = nodes.len();
    let mut i: usize = 0;
    #[verifier::loop_isolation(false)]
    while i < n
        invariant
            i <= n,
            forall|k: int| 0 <= k < i ==> #[trigger] node_wf_at(nodes@, k),
        decreases n - i,
    {
        match nodes.at(i) {
            PoseNode::PlayAnimation(_) => {
                proof {
                    assert(node_wf_at(nodes@, i as int));
                }
            },
            PoseNode::BlendAnimations(b) => {
                let m = b.pose_sources.len();
                let mut k: usize = 0;
                #[verifier::loop_isolation(false)]
                while k < m
                    invariant
                        k <= m,
                        m == b.pose_sources@.len(),
                        i < n,
                        nodes@[i as int] == PoseNodeView::Blend(b@),
                        forall|j: int|
                            0 <= j < k ==> #[trigger] blend_edge_wf(
                                b@[j],
                                nodes@.len() as int,
                                i as int,
                            ),
                    decreases m - k,
                {
                    let bp = &b.pose_sources[k];
                    let ok = bp.pose_source.generation == FIRST_GENERATION
                        && (bp.pose_source.index as usize) < i;
                    if !ok {
                        proof {
                            assert(b@.len() == m);
                            assert(!blend_edge_wf(b@[k as int], nodes@.len() as int, i as int));
                            assert(!blends_wf(b@, nodes@.len() as int, i as int));
                            assert(!node_wf_at(nodes@, i as int));
                        }
                        return false;
                    }
                    k = k + 1;
                }
                proof {
                    assert(node_wf_at(nodes@, i as int));
                }
            },
        }
        i = i + 1;
    }
    true
}

/// Runtime check of [`graph_anims_wf`]: every pass-through node names a
/// live animation of a container with `anims_len` entries.
pub fn check_graph_anims_wf(nodes: &Pool<PoseNode>, anims_len: usize) -> (r: bool)
    ensures
        r == graph_anims_wf(nodes@, anims_len as int),
{
    let n = nodes.len();
    let mut i: usize = 0;
    #[verifier::loop_isolation(false)]
    while i < n
        invariant
            i <= n,
            forall|k: int|
                0 <= k < i ==> match #[trigger] nodes@[k] {
                    PoseNodeView::Play(a) => handle_valid(a, anims_len as int),
                    PoseNodeView::Blend(_) => true,
                },
        decreases n - i,
    {
        match nodes.at(i) {
            PoseNode::PlayAnimation(p) => {
                let ok = p.animation.generation == FIRST_GENERATION
                    && (p.animation.index as usize) < anims_len;
                if !ok {
                    return false;
                }
            },
            PoseNode::BlendAnimations(_) => {},
        }
        i = i + 1;
    }
    true
}

} // verus!
