//! Poses and the weighted-blend accumulator.
//!
//! A pose is a snapshot of animatable values. This core never looks inside a
//! raw sample — sampling an animation clip is an external concern — so a pose
//! records exactly what the machine does with samples: an optional raw sample
//! tag, plus the ordered list of weighted folds that were blended on top.
//! Blending is order-sensitive (later folds are applied on top of earlier
//! ones), and folding at weight zero adds nothing, so a zero-weight fold
//! leaves the accumulator unchanged.

use crate::scalar::Scalar;
use vstd::prelude::*;

verus! {

/// One weighted fold: a pose scaled by a weight, applied on top of whatever
/// the accumulator already holds.
#[derive(Debug, PartialEq)]
pub struct PoseLayer {
    pub weight: Scalar,
    pub pose: Pose,
}

/// A pose value: an optional raw sample tag plus the ordered weighted folds
/// accumulated on top of it. The neutral (reset) pose has no sample and no
/// layers.
#[derive(Debug, PartialEq)]
pub struct Pose {
    pub sample: Option<u64>,
    pub layers: Vec<PoseLayer>,
}

/// Mathematical form of [`PoseLayer`].
#[verifier::ext_equal]
pub struct LayerView {
    pub weight: Scalar,
    pub pose: PoseView,
}

/// Mathematical form of [`Pose`].
#[verifier::ext_equal]
pub struct PoseView {
    pub sample: Option<u64>,
    pub layers: Seq<LayerView>,
}

/// The view of a pose: the same tree over `Seq` instead of `Vec`.
pub open spec fn pose_view(p: Pose) -> PoseView
    decreases p,
    via pose_view_decreases
{
    PoseView {
        sample: p.sample,
        layers: Seq::new(
            p.layers@.len(),
            |i: int|
                if 0 <= i < p.layers@.len() {
                    LayerView {
                        weight: p.layers@[i].weight,
                        pose: pose_view(p.layers@[i].pose),
                    }
                } else {
                    LayerView { weight: Scalar::spec_zero(), pose: PoseView::neutral() }
                },
        ),
    }
}

#[via_fn]
proof fn pose_view_decreases(p: Pose) {
    assert forall|i: int| 0 <= i < p.layers@.len() implies decreases_to!(
        p => p.layers@[i].pose
    ) by {
        assert(decreases_to!(p => p.layers));
        assert(decreases_to!(p.layers => p.layers@));
        assert(decreases_to!(p.layers@ => p.layers@[i]));
        assert(decreases_to!(p.layers@[i] => p.layers@[i].pose));
    }
}

impl View for Pose {
    type V = PoseView;

    open spec fn view(&self) -> PoseView {
        pose_view(*self)
    }
}

impl PoseView {
    /// The neutral pose: what `reset` leaves behind.
    pub open spec fn neutral() -> PoseView {
        PoseView { sample: None, layers: Seq::empty() }
    }

    /// A raw sample, as an animation hands it out.
    pub open spec fn of_sample(id: u64) -> PoseView {
        PoseView { sample: Some(id), layers: Seq::empty() }
    }

    /// The accumulator after folding `other` at `weight` into `self`:
    /// unchanged on a zero weight, one more layer otherwise.
    pub open spec fn blended(self, other: PoseView, weight: Scalar) -> PoseView {
        if weight.is_zero() {
            self
        } else {
            PoseView { sample: self.sample, layers: self.layers.push(LayerView { weight, pose: other }) }
        }
    }
}

/// Deep copy, proved to keep the view.
pub fn clone_pose(p: &Pose) -> (r: Pose)
    ensures
        r@ == p@,
    decreases *p,
{
    let mut layers: Vec<PoseLayer> = Vec::new();
    let n = p.layers.len();
    #[verifier::loop_isolation(false)]
    for i in 0..n
        invariant
            layers@.len() == i,
            forall|j: int| 0 <= j < i ==> #[trigger] layers@[j].weight == p.layers@[j].weight,
            forall|j: int| 0 <= j < i ==> #[trigger] pose_view(layers@[j].pose) == pose_view(
                p.layers@[j].pose,
            ),
    {
        let pose = clone_pose(&p.layers[i].pose);
        layers.push(PoseLayer { weight: p.layers[i].weight, pose });
    }
    let r = Pose { sample: p.sample, layers };
    proof {
        assert(r.layers@.len() == p.layers@.len());
        assert forall|j: int| 0 <= j < p.layers@.len() implies r@.layers[j] == p@.layers[j] by {
            assert(r.layers@[j].weight == p.layers@[j].weight);
            assert(pose_view(r.layers@[j].pose) == pose_view(p.layers@[j].pose));
        }
        assert(r@.layers =~= p@.layers);
        assert(r@ =~= p@);
    }
    r
}

impl Clone for Pose {
    /// Deep copy, proved to keep the view.
    fn clone(&self) -> (r: Pose)
        ensures
            r@ == self@,
    {
        clone_pose(self)
    }
}

impl Pose {
    /// The neutral pose, the accumulator's starting point.
    pub fn neutral() -> (r: Pose)
        ensures
            r@ == PoseView::neutral(),
    {
        let r = Pose { sample: None, layers: Vec::new() };
        proof {
            assert(r.layers@.len() == 0);
            assert(pose_view(r).layers.len() == 0);
            assert(pose_view(r).layers =~= Seq::<LayerView>::empty());
            assert(pose_view(r).sample is None);
            assert(r@ =~~= PoseView::neutral());
        }
        r
    }

    /// A raw sample with the given tag, for the external sampler to hand out.
    pub fn from_sample(id: u64) -> (r: Pose)
        ensures
            r@ == PoseView::of_sample(id),
    {
        let r = Pose { sample: Some(id), layers: Vec::new() };
        proof {
            assert(r.layers@.len() == 0);
            assert(r@.layers =~= Seq::<LayerView>::empty());
            assert(r@ =~= PoseView::of_sample(id));
        }
        r
    }

    /// Clears the accumulator back to neutral.
    pub fn reset(&mut self)
        ensures
            final(self)@ == PoseView::neutral(),
    {
        self.sample = None;
        self.layers = Vec::new();
        proof {
            assert(self.layers@.len() == 0);
            assert(self@.layers =~= Seq::<LayerView>::empty());
            assert(self@ =~= PoseView::neutral());
        }
    }

    /// Folds `other`, scaled by `weight`, on top of the accumulator. Order
    /// matters: later folds land on top of earlier ones. A zero weight adds
    /// nothing.
    pub fn blend_with(&mut self, other: &Pose, weight: Scalar)
        ensures
            final(self)@ == old(self)@.blended(other@, weight),
    {
        if weight.num != 0 {
            let pose = clone_pose(other);
            self.layers.push(PoseLayer { weight, pose });
            proof {
                assert(self@.layers =~= old(self)@.layers.push(
                    LayerView { weight, pose: other@ },
                ));
                assert(self@ =~= old(self)@.blended(other@, weight));
            }
        }
    }

    /// Copies this pose into `target`, replacing whatever it held.
    pub fn clone_into(&self, target: &mut Pose)
        ensures
            final(target)@ == self@,
    {
        *target = clone_pose(self);
    }
}

} // verus!
