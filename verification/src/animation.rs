//! Animations as the machine sees them.
//!
//! Sampling an animation clip — advancing its internal clock and producing a
//! raw pose — is an external concern. This core only reads each animation's
//! current pose, which the caller refreshes between frames. An animation is
//! therefore just a holder for that pose, and the container an arena of them.

use crate::pool::{handle_valid, Handle, Pool};
use crate::pose::{Pose, PoseView};
use vstd::prelude::*;

verus! {

/// One animation: the pose it currently samples to.
pub struct Animation {
    pose: Pose,
}

impl View for Animation {
    type V = PoseView;

    closed spec fn view(&self) -> PoseView {
        self.pose@
    }
}

impl Animation {
    /// An animation currently sampling to `pose`.
    pub fn new(pose: Pose) -> (r: Animation)
        ensures
            r@ == pose@,
    {
        Animation { pose }
    }
}

/// Arena of animations, addressed by generational handles. Its view is the
/// sequence of current poses.
pub struct AnimationContainer {
    animations: Pool<Animation>,
}

impl View for AnimationContainer {
    type V = Seq<PoseView>;

    closed spec fn view(&self) -> Seq<PoseView> {
        self.animations@
    }
}

impl AnimationContainer {
    /// An empty container.
    pub fn new() -> (r: AnimationContainer)
        ensures
            r@ == Seq::<PoseView>::empty(),
    {
        AnimationContainer { animations: Pool::new() }
    }

    pub fn len(&self) -> (n: usize)
        ensures
            n == self@.len(),
    {
        self.animations.len()
    }

    /// Adds an animation and hands back its handle.
    pub fn add(&mut self, animation: Animation) -> (h: Handle)
        requires
            old(self)@.len() < u32::MAX,
        ensures
            final(self)@ == old(self)@.push(animation@),
            h.index as int == old(self)@.len(),
            h.generation == crate::pool::FIRST_GENERATION,
            h.spec_is_some(),
    {
        self.animations.spawn(animation)
    }

    /// The current pose of a live animation.
    pub fn pose_of(&self, h: Handle) -> (r: &Pose)
        requires
            handle_valid(h, self@.len() as int),
        ensures
            r@ == self@[h.index as int],
    {
        &self.animations.at(h.index as usize).pose
    }

    /// Replaces the current pose of a live animation: the external sampler
    /// reporting a new frame.
    pub fn set_pose(&mut self, h: Handle, pose: Pose)
        requires
            handle_valid(h, old(self)@.len() as int),
        ensures
            final(self)@ == old(self)@.update(h.index as int, pose@),
    {
        self.animations.put(h.index as usize, Animation { pose });
    }
}

} // verus!
