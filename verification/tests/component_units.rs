//! Unit tests of the individual components.

use anim_machine::animation::{Animation, AnimationContainer};
use anim_machine::events::{Event, LimitedEventQueue};
use anim_machine::machine::{Machine, State};
use anim_machine::nodes::{BlendPose, PoseNode, PoseWeight};
use anim_machine::params::{Parameter, ParameterContainer};
use anim_machine::pool::{Handle, Pool, FIRST_GENERATION};
use anim_machine::pose::Pose;
use anim_machine::scalar::Scalar;

#[test]
fn bounded_queue_drops_on_overflow() {
    // Capacity two: the first two pushes stay, the third is lost, and after
    // both are drained the queue reports empty.
    let mut queue = LimitedEventQueue::new(2);
    let a = Event::StateEnter(Handle { index: 1, generation: 1 });
    let b = Event::StateLeave(Handle { index: 2, generation: 1 });
    let c = Event::ActiveStateChanged(Handle { index: 3, generation: 1 });
    queue.push(a);
    queue.push(b);
    queue.push(c);
    assert_eq!(queue.len(), 2);
    assert_eq!(queue.pop(), Some(a));
    assert_eq!(queue.pop(), Some(b));
    assert_eq!(queue.pop(), None);
    assert_eq!(queue.pop(), None);
}

#[test]
fn queue_is_fifo_across_frames() {
    let mut queue = LimitedEventQueue::new(8);
    let a = Event::StateEnter(Handle { index: 1, generation: 1 });
    let b = Event::StateLeave(Handle { index: 1, generation: 1 });
    queue.push(a);
    assert_eq!(queue.pop(), Some(a));
    queue.push(b);
    queue.push(a);
    assert_eq!(queue.pop(), Some(b));
    assert_eq!(queue.pop(), Some(a));
    assert_eq!(queue.pop(), None);
}

#[test]
fn parameters_last_write_wins() {
    let mut params = ParameterContainer::new();
    assert_eq!(params.get("Go"), None);
    params.set("Go", Parameter::Rule(false));
    assert_eq!(params.get("Go"), Some(Parameter::Rule(false)));
    // Overwrites keep the key unique, including across variants.
    params.set("Go", Parameter::Weight(Scalar::new(1, 2)));
    assert_eq!(params.get("Go"), Some(Parameter::Weight(Scalar::new(1, 2))));
    params.set("Go", Parameter::Rule(true));
    assert_eq!(params.get("Go"), Some(Parameter::Rule(true)));
    // Other keys are untouched.
    params.set("Walk", Parameter::Weight(Scalar::new(3, 4)));
    assert_eq!(params.get("Go"), Some(Parameter::Rule(true)));
    assert_eq!(params.get("Walk"), Some(Parameter::Weight(Scalar::new(3, 4))));
    assert_eq!(params.get("walk"), None);
}

#[test]
fn pool_handles_detect_staleness() {
    let mut pool: Pool<u32> = Pool::new();
    let h0 = pool.spawn(10);
    let h1 = pool.spawn(20);
    assert_eq!(h0.index, 0);
    assert_eq!(h1.index, 1);
    assert_eq!(h0.generation, FIRST_GENERATION);
    assert_eq!(*pool.at(0), 10);
    assert_eq!(pool.get(h1), Some(&20));
    // The null handle and fabricated handles resolve to nothing.
    assert_eq!(pool.get(Handle::none()), None);
    assert_eq!(pool.get(Handle { index: 0, generation: 7 }), None);
    assert_eq!(pool.get(Handle { index: 5, generation: 1 }), None);
    assert!(Handle::none().is_none());
    assert!(h0.is_some());
    pool.put(0, 11);
    assert_eq!(pool.get(h0), Some(&11));
    assert_eq!(pool.len(), 2);
}

#[test]
fn pose_blending_is_ordered_and_skips_zero_weights() {
    let mut acc = Pose::neutral();
    let first = Pose::from_sample(1);
    let second = Pose::from_sample(2);
    acc.blend_with(&first, Scalar::new(1, 2));
    acc.blend_with(&second, Scalar::new(0, 5));
    acc.blend_with(&second, Scalar::new(1, 2));

    let mut same_weights_other_order = Pose::neutral();
    same_weights_other_order.blend_with(&second, Scalar::new(1, 2));
    same_weights_other_order.blend_with(&first, Scalar::new(1, 2));

    // The zero-weight fold left no trace...
    let mut no_zero = Pose::neutral();
    no_zero.blend_with(&first, Scalar::new(1, 2));
    no_zero.blend_with(&second, Scalar::new(1, 2));
    assert_eq!(acc, no_zero);
    // ...and order distinguishes otherwise equal folds.
    assert_ne!(acc, same_weights_other_order);

    acc.reset();
    assert_eq!(acc, Pose::neutral());
}

#[test]
fn pose_clone_into_replaces_target() {
    let src = Pose::from_sample(9);
    let mut dst = Pose::neutral();
    dst.blend_with(&Pose::from_sample(1), Scalar::new(1, 1));
    src.clone_into(&mut dst);
    assert_eq!(dst, src);
}

#[test]
fn animations_hold_their_current_pose() {
    let mut animations = AnimationContainer::new();
    let h = animations.add(Animation::new(Pose::from_sample(4)));
    assert_eq!(animations.len(), 1);
    assert_eq!(*animations.pose_of(h), Pose::from_sample(4));
    animations.set_pose(h, Pose::from_sample(5));
    assert_eq!(*animations.pose_of(h), Pose::from_sample(5));
}

#[test]
fn scalar_ratio_values() {
    let half = Scalar::new(1, 2);
    assert_eq!(half.num, 1);
    assert_eq!(half.den, 2);
    assert_eq!(Scalar::zero(), Scalar::new(0, 1));
    assert_eq!(Scalar::one(), Scalar::new(1, 1));
    assert_ne!(Scalar::new(2, 4), half);
    let negative = Scalar::new(-3, 4);
    assert_eq!(negative.num, -3);
}

#[test]
fn state_update_recomputes_cached_pose() {
    let mut animations = AnimationContainer::new();
    let clip = animations.add(Animation::new(Pose::from_sample(6)));
    let mut nodes: Pool<PoseNode> = Pool::new();
    let play = nodes.spawn(PoseNode::make_play_animation(clip));
    let params = ParameterContainer::new();
    let mut state = State::new("S", play);
    assert_eq!(state.pose(), &Pose::neutral());
    state.update(&nodes, &params, &animations);
    assert_eq!(state.pose(), &Pose::from_sample(6));
    assert_eq!(state.name(), "S");
    assert_eq!(state.root(), play);
}

#[test]
fn nested_combiners_blend_recursively() {
    let mut animations = AnimationContainer::new();
    let a = animations.add(Animation::new(Pose::from_sample(1)));
    let b = animations.add(Animation::new(Pose::from_sample(2)));
    let c = animations.add(Animation::new(Pose::from_sample(3)));
    let mut machine = Machine::new();
    let na = machine.add_node(PoseNode::make_play_animation(a));
    let nb = machine.add_node(PoseNode::make_play_animation(b));
    let nc = machine.add_node(PoseNode::make_play_animation(c));
    let inner = machine.add_node(PoseNode::make_blend_animations(vec![
        BlendPose::with_constant_weight(Scalar::new(3, 4), na),
        BlendPose::new(PoseWeight::Constant(Scalar::new(1, 4)), nb),
    ]));
    let outer = machine.add_node(PoseNode::make_blend_animations(vec![
        BlendPose::with_constant_weight(Scalar::new(1, 2), inner),
        BlendPose::with_constant_weight(Scalar::new(1, 2), nc),
    ]));
    machine.add_state(State::new("Mix", outer));
    assert!(machine.is_well_formed());
    assert!(machine.animations_compatible(&animations));

    let pose = machine.evaluate_pose(&animations, 1).clone();
    let mut inner_expected = Pose::neutral();
    inner_expected.blend_with(&Pose::from_sample(1), Scalar::new(3, 4));
    inner_expected.blend_with(&Pose::from_sample(2), Scalar::new(1, 4));
    let mut expected = Pose::neutral();
    expected.blend_with(&inner_expected, Scalar::new(1, 2));
    expected.blend_with(&Pose::from_sample(3), Scalar::new(1, 2));
    assert_eq!(pose, expected);
}
