//! Machine-wide laws, proved once and for all over the functional model
//! that `evaluate_pose`, `reset` and the other methods are verified to
//! implement exactly.

use crate::machine::{
    eligible, first_eligible_from, machine_wf, spec_evaluate, spec_progress, spec_reset,
    spec_search, state_entry_wf, transition_entry_wf, transition_timing_wf, MachineView,
};
use crate::pose::PoseView;
use crate::scalar::Scalar;
use vstd::prelude::*;

verus! {

/// The machine after a whole sequence of frames, oldest first.
pub open spec fn spec_evaluate_seq(m: MachineView, anims: Seq<PoseView>, dts: Seq<u32>) -> MachineView
    decreases dts.len(),
{
    if dts.len() == 0 {
        m
    } else {
        spec_evaluate_seq(spec_evaluate(m, anims, dts[0]), anims, dts.drop_first())
    }
}

proof fn lemma_first_eligible_in_range(m: MachineView, k: int)
    ensures
        match first_eligible_from(m, k) {
            Some(i) => k <= i < m.transitions.len() && eligible(m, i),
            None => true,
        },
    decreases m.transitions.len() - k,
{
    if 0 <= k < m.transitions.len() && !eligible(m, k) {
        lemma_first_eligible_in_range(m, k + 1);
    }
}

proof fn lemma_first_eligible_min(m: MachineView, k: int, i: int)
    requires
        0 <= k <= i < m.transitions.len(),
        eligible(m, i),
    ensures
        match first_eligible_from(m, k) {
            Some(r) => k <= r <= i && eligible(m, r),
            None => false,
        },
    decreases i - k,
{
    if !eligible(m, k) && k < i {
        lemma_first_eligible_min(m, k + 1, i);
    }
}

/// The search phase keeps the machine well-formed.
proof fn lemma_search_preserves_wf(m: MachineView)
    requires
        machine_wf(m),
    ensures
        machine_wf(spec_search(m)),
        spec_search(m).transitions == m.transitions,
        spec_search(m).states == m.states,
        spec_search(m).parameters == m.parameters,
{
    lemma_first_eligible_in_range(m, 0);
}

/// The blend-or-pass-through phase keeps the machine well-formed.
proof fn lemma_progress_preserves_wf(m: MachineView, dt: u32)
    requires
        machine_wf(m),
    ensures
        machine_wf(spec_progress(m, dt)),
{
    let r = spec_progress(m, dt);
    if m.active_transition.spec_is_some() {
        let ti = m.active_transition.index as int;
        assert(transition_entry_wf(m.transitions, m.states.len() as int, ti));
        assert forall|i: int| 0 <= i < r.transitions.len() implies #[trigger] transition_entry_wf(
            r.transitions,
            r.states.len() as int,
            i,
        ) by {
            assert(transition_entry_wf(m.transitions, m.states.len() as int, i));
        }
    }
}

/// After any frame, a well-formed machine stays well-formed; in particular
/// every transition still satisfies `0 <= elapsed_time <= transition_time`
/// with `blend_factor == elapsed_time / transition_time`, exactly.
pub proof fn lemma_evaluate_preserves_wf(m: MachineView, anims: Seq<PoseView>, dt: u32)
    requires
        machine_wf(m),
    ensures
        machine_wf(spec_evaluate(m, anims, dt)),
        forall|i: int|
            0 <= i < spec_evaluate(m, anims, dt).transitions.len()
                ==> transition_timing_wf(#[trigger] spec_evaluate(m, anims, dt).transitions[i]),
{
    let m0 = MachineView { final_pose: PoseView::neutral(), ..m };
    assert(machine_wf(m0));
    if m.active_state.spec_is_some() || m.active_transition.spec_is_some() {
        let m1 = MachineView {
            states: crate::machine::refreshed_states(m0, anims),
            ..m0
        };
        assert forall|i: int| 0 <= i < m1.states.len() implies #[trigger] state_entry_wf(
            m1.states,
            m1.nodes.len() as int,
            i,
        ) by {
            assert(state_entry_wf(m0.states, m0.nodes.len() as int, i));
        }
        assert(machine_wf(m1));
        lemma_search_preserves_wf(m1);
        lemma_progress_preserves_wf(spec_search(m1), dt);
    }
    let res = spec_evaluate(m, anims, dt);
    assert forall|i: int|
        0 <= i < res.transitions.len() implies transition_timing_wf(
        #[trigger] res.transitions[i],
    ) by {
        assert(transition_entry_wf(res.transitions, res.states.len() as int, i));
    }
}

/// For all transitions, after any sequence of frames of a well-formed
/// machine, `0 <= elapsed_time <= transition_time` holds and
/// `blend_factor == elapsed_time / transition_time` holds exactly.
pub proof fn lemma_transition_bounds_after_any_frames(
    m: MachineView,
    anims: Seq<PoseView>,
    dts: Seq<u32>,
)
    requires
        machine_wf(m),
    ensures
        machine_wf(spec_evaluate_seq(m, anims, dts)),
        forall|i: int|
            0 <= i < spec_evaluate_seq(m, anims, dts).transitions.len() ==> {
                let t = #[trigger] spec_evaluate_seq(m, anims, dts).transitions[i];
                &&& 0 <= t.elapsed_time <= t.transition_time
                &&& t.blend_factor == (Scalar {
                    num: t.elapsed_time as i64,
                    den: t.transition_time as i64,
                })
            },
    decreases dts.len(),
{
    if dts.len() == 0 {
        assert forall|i: int|
            0 <= i < m.transitions.len() implies transition_timing_wf(
            #[trigger] m.transitions[i],
        ) by {
            assert(transition_entry_wf(m.transitions, m.states.len() as int, i));
        }
    } else {
        lemma_evaluate_preserves_wf(m, anims, dts[0]);
        lemma_transition_bounds_after_any_frames(
            spec_evaluate(m, anims, dts[0]),
            anims,
            dts.drop_first(),
        );
    }
}

/// Resetting twice leaves exactly the state of resetting once: the active
/// state is the entry state and every transition timer is cleared either
/// way.
pub proof fn lemma_reset_idempotent(m: MachineView)
    ensures
        spec_reset(spec_reset(m)) == spec_reset(m),
{
    assert(spec_reset(spec_reset(m)).transitions =~= spec_reset(m).transitions);
    assert(spec_reset(spec_reset(m)) =~= spec_reset(m));
}

/// Determinism: two identically built machines fed the identical animation
/// poses and the identical sequence of frame times end in identical states —
/// in particular with identical final poses and identical event queues.
pub proof fn lemma_evaluate_deterministic(
    m1: MachineView,
    m2: MachineView,
    anims: Seq<PoseView>,
    dts: Seq<u32>,
)
    requires
        m1 == m2,
    ensures
        spec_evaluate_seq(m1, anims, dts) == spec_evaluate_seq(m2, anims, dts),
        spec_evaluate_seq(m1, anims, dts).final_pose == spec_evaluate_seq(m2, anims, dts).final_pose,
        spec_evaluate_seq(m1, anims, dts).events == spec_evaluate_seq(m2, anims, dts).events,
{
}

/// Transition selection is order-stable: when two transitions are both
/// eligible (right source state, rule true), the one added first activates,
/// never the later one. Eligibility does not depend on the cached poses, so
/// it is stated on the machine as the frame began.
pub proof fn lemma_first_match_wins(m: MachineView, anims: Seq<PoseView>, i: int, j: int)
    requires
        machine_wf(m),
        m.active_state.spec_is_some(),
        m.active_transition.spec_is_none(),
        0 <= i < j < m.transitions.len(),
        eligible(m, i),
        eligible(m, j),
    ensures
        ({
            let m1 = MachineView {
                states: crate::machine::refreshed_states(
                    MachineView { final_pose: PoseView::neutral(), ..m },
                    anims,
                ),
                final_pose: PoseView::neutral(),
                ..m
            };
            let activated = spec_search(m1).active_transition;
            &&& activated.spec_is_some()
            &&& activated.index as int <= i
            &&& activated.index as int != j
            &&& eligible(m, activated.index as int)
        }),
{
    let m0 = MachineView { final_pose: PoseView::neutral(), ..m };
    let m1 = MachineView { states: crate::machine::refreshed_states(m0, anims), ..m0 };
    assert forall|k: int| 0 <= k < m.transitions.len() implies eligible(m1, k) == eligible(
        m,
        k,
    ) by {}
    lemma_first_eligible_min(m1, 0, i);
    lemma_first_eligible_in_range(m1, 0);
    assert(m.transitions.len() <= u32::MAX);
}

} // verus!
