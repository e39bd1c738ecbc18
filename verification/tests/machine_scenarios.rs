//! End-to-end scenarios of the state machine.

use anim_machine::animation::{Animation, AnimationContainer};
use anim_machine::events::Event;
use anim_machine::machine::{Machine, State, Transition};
use anim_machine::nodes::PoseNode;
use anim_machine::params::Parameter;
use anim_machine::pool::Handle;
use anim_machine::pose::Pose;
use anim_machine::scalar::Scalar;

const IDLE_SAMPLE: u64 = 1;
const WALK_SAMPLE: u64 = 2;

/// Idle (entry) and Walk, one Idle->Walk transition of 10 ticks gated by
/// "Go". A tick stands for a tenth of a second.
fn idle_walk_machine() -> (Machine, AnimationContainer, Handle, Handle) {
    let mut animations = AnimationContainer::new();
    let idle_anim = animations.add(Animation::new(Pose::from_sample(IDLE_SAMPLE)));
    let walk_anim = animations.add(Animation::new(Pose::from_sample(WALK_SAMPLE)));
    let mut machine = Machine::new();
    let idle_node = machine.add_node(PoseNode::make_play_animation(idle_anim));
    let walk_node = machine.add_node(PoseNode::make_play_animation(walk_anim));
    let idle = machine.add_state(State::new("Idle", idle_node));
    let walk = machine.add_state(State::new("Walk", walk_node));
    machine.set_entry_state(idle);
    machine.add_transition(Transition::new("Idle->Walk", idle, walk, 10, "Go"));
    (machine, animations, idle, walk)
}

#[test]
fn transition_activates_and_completes() {
    let (mut machine, animations, idle, walk) = idle_walk_machine();
    assert!(machine.is_well_formed());
    assert!(machine.animations_compatible(&animations));
    machine.set_parameter("Go", Parameter::Rule(true));

    // First frame: the transition activates. The cross-fade uses the blend
    // factor as it was when the frame began (zero), and the timer then
    // advances to 4 of 10 ticks.
    let pose = machine.evaluate_pose(&animations, 4).clone();
    let mut expected = Pose::neutral();
    expected.blend_with(&Pose::from_sample(IDLE_SAMPLE), Scalar::new(10, 10));
    expected.blend_with(&Pose::from_sample(WALK_SAMPLE), Scalar::new(0, 10));
    assert_eq!(pose, expected);
    assert!(machine.active_transition().is_some());
    assert!(machine.active_state().is_none());
    let t = machine.transitions().at(0);
    assert_eq!(t.elapsed_time(), 4);
    assert_eq!(t.blend_factor(), Scalar::new(4, 10));
    assert!(!t.is_done());

    // Activation emitted StateLeave of the active state and StateEnter of
    // the transition's *source* state — the long-standing pairing.
    assert_eq!(machine.pop_event(), Some(Event::StateLeave(idle)));
    assert_eq!(machine.pop_event(), Some(Event::StateEnter(idle)));
    assert_eq!(machine.pop_event(), None);

    // Second frame: cross-fade at 0.6/0.4, the timer reaches 10 of 10, the
    // transition completes and Walk becomes active.
    let pose = machine.evaluate_pose(&animations, 6).clone();
    let mut expected = Pose::neutral();
    expected.blend_with(&Pose::from_sample(IDLE_SAMPLE), Scalar::new(6, 10));
    expected.blend_with(&Pose::from_sample(WALK_SAMPLE), Scalar::new(4, 10));
    assert_eq!(pose, expected);
    assert!(machine.active_transition().is_none());
    assert_eq!(machine.active_state(), walk);
    let t = machine.transitions().at(0);
    assert_eq!(t.elapsed_time(), 0);
    assert_eq!(t.blend_factor(), Scalar::new(0, 10));
    assert_eq!(machine.pop_event(), Some(Event::ActiveStateChanged(walk)));
    assert_eq!(machine.pop_event(), None);
}

#[test]
fn steady_state_passes_cached_pose_through() {
    // No transitions, a single state: every frame returns exactly that
    // state's cached pose and emits nothing.
    let mut animations = AnimationContainer::new();
    let clip = animations.add(Animation::new(Pose::from_sample(7)));
    let mut machine = Machine::new();
    let node = machine.add_node(PoseNode::make_play_animation(clip));
    let s = machine.add_state(State::new("S", node));
    for dt in [0u32, 1, 1000, u32::MAX] {
        let pose = machine.evaluate_pose(&animations, dt).clone();
        assert_eq!(pose, Pose::from_sample(7));
        assert_eq!(pose, machine.get_state(s).pose().clone());
        assert_eq!(machine.pop_event(), None);
    }
    assert_eq!(machine.active_state(), s);
}

#[test]
fn empty_machine_stays_neutral() {
    let animations = AnimationContainer::new();
    let mut machine = Machine::new();
    let pose = machine.evaluate_pose(&animations, 5).clone();
    assert_eq!(pose, Pose::neutral());
    assert_eq!(machine.pop_event(), None);
}

#[test]
fn rule_false_or_missing_never_activates() {
    let (mut machine, animations, idle, _walk) = idle_walk_machine();
    // Missing rule.
    machine.evaluate_pose(&animations, 4);
    assert!(machine.active_transition().is_none());
    assert_eq!(machine.active_state(), idle);
    // Rule present but false.
    machine.set_parameter("Go", Parameter::Rule(false));
    machine.evaluate_pose(&animations, 4);
    assert!(machine.active_transition().is_none());
    // A Weight under the rule's name does not count as a true rule.
    machine.set_parameter("Go", Parameter::Weight(Scalar::new(1, 1)));
    machine.evaluate_pose(&animations, 4);
    assert!(machine.active_transition().is_none());
    assert_eq!(machine.pop_event(), None);
}

#[test]
fn self_transition_never_activates() {
    let mut animations = AnimationContainer::new();
    let clip = animations.add(Animation::new(Pose::from_sample(3)));
    let mut machine = Machine::new();
    let node = machine.add_node(PoseNode::make_play_animation(clip));
    let s = machine.add_state(State::new("S", node));
    machine.add_transition(Transition::new("S->S", s, s, 10, "Loop"));
    machine.set_parameter("Loop", Parameter::Rule(true));
    machine.evaluate_pose(&animations, 4);
    assert!(machine.active_transition().is_none());
    assert_eq!(machine.active_state(), s);
}

#[test]
fn first_added_transition_wins() {
    // Two transitions out of Idle, both with true rules: the one added
    // first activates, insertion order, never priority.
    let mut animations = AnimationContainer::new();
    let idle_anim = animations.add(Animation::new(Pose::from_sample(1)));
    let walk_anim = animations.add(Animation::new(Pose::from_sample(2)));
    let run_anim = animations.add(Animation::new(Pose::from_sample(3)));
    let mut machine = Machine::new();
    let idle_node = machine.add_node(PoseNode::make_play_animation(idle_anim));
    let walk_node = machine.add_node(PoseNode::make_play_animation(walk_anim));
    let run_node = machine.add_node(PoseNode::make_play_animation(run_anim));
    let idle = machine.add_state(State::new("Idle", idle_node));
    let walk = machine.add_state(State::new("Walk", walk_node));
    let run = machine.add_state(State::new("Run", run_node));
    machine.set_entry_state(idle);
    machine.add_transition(Transition::new("Idle->Walk", idle, walk, 10, "Go"));
    machine.add_transition(Transition::new("Idle->Run", idle, run, 10, "Go"));
    machine.set_parameter("Go", Parameter::Rule(true));
    machine.evaluate_pose(&animations, 2);
    let active = machine.active_transition();
    assert!(active.is_some());
    assert_eq!(active.index, 0);
    // Let it complete: the machine lands in Walk, not Run.
    machine.evaluate_pose(&animations, 10);
    assert_eq!(machine.active_state(), walk);
}

#[test]
fn timer_clamps_at_transition_time() {
    let (mut machine, animations, _idle, walk) = idle_walk_machine();
    machine.set_parameter("Go", Parameter::Rule(true));
    machine.evaluate_pose(&animations, 3);
    // A huge step clamps at the total instead of overshooting.
    machine.evaluate_pose(&animations, u32::MAX);
    assert!(machine.active_transition().is_none());
    assert_eq!(machine.active_state(), walk);
    let t = machine.transitions().at(0);
    assert_eq!(t.elapsed_time(), 0);
    assert_eq!(t.transition_time(), 10);
}

#[test]
fn reset_is_idempotent() {
    let (mut machine, animations, idle, _walk) = idle_walk_machine();
    machine.set_parameter("Go", Parameter::Rule(true));
    machine.evaluate_pose(&animations, 4);
    assert!(machine.active_transition().is_some());

    machine.reset();
    let active_once = machine.active_state();
    let elapsed_once = machine.transitions().at(0).elapsed_time();
    let bf_once = machine.transitions().at(0).blend_factor();
    machine.reset();
    assert_eq!(machine.active_state(), active_once);
    assert_eq!(machine.transitions().at(0).elapsed_time(), elapsed_once);
    assert_eq!(machine.transitions().at(0).blend_factor(), bf_once);
    assert_eq!(machine.active_state(), idle);
    assert_eq!(elapsed_once, 0);
    assert_eq!(bf_once, Scalar::new(0, 10));
}

#[test]
fn identical_machines_evolve_identically() {
    let (mut m1, anims1, _i1, _w1) = idle_walk_machine();
    let (mut m2, anims2, _i2, _w2) = idle_walk_machine();
    m1.set_parameter("Go", Parameter::Rule(true));
    m2.set_parameter("Go", Parameter::Rule(true));
    for dt in [3u32, 3, 2, 5, 0, 7] {
        let p1 = m1.evaluate_pose(&anims1, dt).clone();
        let p2 = m2.evaluate_pose(&anims2, dt).clone();
        assert_eq!(p1, p2);
    }
    loop {
        let e1 = m1.pop_event();
        let e2 = m2.pop_event();
        assert_eq!(e1, e2);
        if e1.is_none() {
            break;
        }
    }
    assert_eq!(m1.active_state(), m2.active_state());
    assert_eq!(m1.active_transition(), m2.active_transition());
}

#[test]
fn states_refresh_from_parameter_changes() {
    // A combiner whose weights come from parameters follows the table
    // frame by frame.
    let mut animations = AnimationContainer::new();
    let a = animations.add(Animation::new(Pose::from_sample(10)));
    let b = animations.add(Animation::new(Pose::from_sample(20)));
    let mut machine = Machine::new();
    let na = machine.add_node(PoseNode::make_play_animation(a));
    let nb = machine.add_node(PoseNode::make_play_animation(b));
    let blend = machine.add_node(PoseNode::make_blend_animations(vec![
        anim_machine::nodes::BlendPose::with_param_weight("A", na),
        anim_machine::nodes::BlendPose::with_param_weight("B", nb),
    ]));
    machine.add_state(State::new("Mix", blend));

    // Both parameters unset: both weights default to zero and the result is
    // the accumulator's neutral state.
    let pose = machine.evaluate_pose(&animations, 1).clone();
    assert_eq!(pose, Pose::neutral());

    // Set "A"=0.75 and "B"=0.25: both samples are folded in, in list order.
    machine.set_parameter("A", Parameter::Weight(Scalar::new(75, 100)));
    machine.set_parameter("B", Parameter::Weight(Scalar::new(25, 100)));
    let pose = machine.evaluate_pose(&animations, 1).clone();
    let mut expected = Pose::neutral();
    expected.blend_with(&Pose::from_sample(10), Scalar::new(75, 100));
    expected.blend_with(&Pose::from_sample(20), Scalar::new(25, 100));
    assert_eq!(pose, expected);

    // A Rule under a weight's name resolves to zero, not an error.
    machine.set_parameter("A", Parameter::Rule(true));
    let pose = machine.evaluate_pose(&animations, 1).clone();
    let mut expected = Pose::neutral();
    expected.blend_with(&Pose::from_sample(20), Scalar::new(25, 100));
    assert_eq!(pose, expected);
}

#[test]
fn well_formedness_check_rejects_fabricated_handles() {
    let (machine, animations, _idle, _walk) = idle_walk_machine();
    assert!(machine.is_well_formed());
    assert!(machine.animations_compatible(&animations));

    let mut broken = Machine::new();
    let bogus = Handle { index: 99, generation: 1 };
    broken.add_transition(Transition::new("broken", bogus, bogus, 10, "Go"));
    assert!(!broken.is_well_formed());

    // A machine whose node names a missing animation fails the animation
    // compatibility check.
    let empty_animations = AnimationContainer::new();
    assert!(!machine.animations_compatible(&empty_animations));
}
