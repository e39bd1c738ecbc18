//! The state machine: states, timed transitions, and the per-frame
//! evaluation that blends everything into one output pose.
//!
//! Each frame the machine refreshes every state's cached pose, looks for a
//! transition to activate when none is active (first match in insertion
//! order wins), and either cross-fades the active transition's source and
//! destination poses or passes the active state's pose through. The whole
//! step is specified by [`spec_evaluate`], a function of the machine's view,
//! the animations' poses and the elapsed time; `evaluate_pose` is proved to
//! implement it exactly.

use crate::animation::AnimationContainer;
use crate::events::{pushed, Event, LimitedEventQueue};
use crate::nodes::{eval_node, eval_node_at, graph_anims_wf, graph_wf, PoseNode, PoseNodeView};
use crate::params::{Parameter, ParameterContainer};
use crate::pool::{handle_valid, Handle, Pool, FIRST_GENERATION};
use crate::pose::{clone_pose, Pose, PoseView};
use crate::scalar::Scalar;
use vstd::prelude::*;

verus! {

/// A named handle into the pose graph plus the most recently evaluated pose.
pub struct State {
    name: String,
    root: Handle,
    pose: Pose,
}

/// Mathematical form of [`State`].
#[verifier::ext_equal]
pub struct StateView {
    pub name: Seq<char>,
    pub root: Handle,
    pub pose: PoseView,
}

impl View for State {
    type V = StateView;

    closed spec fn view(&self) -> StateView {
        StateView { name: self.name@, root: self.root, pose: self.pose@ }
    }
}

impl State {
    /// A state over the given pose-graph root; its cached pose starts
    /// neutral.
    pub fn new(name: &str, root: Handle) -> (r: State)
        ensures
            r@.name == name@,
            r@.root == root,
            r@.pose == PoseView::neutral(),
    {
        State { name: name.to_owned(), root, pose: Pose::neutral() }
    }

    pub fn name(&self) -> (r: &str)
        ensures
            r@ == self@.name,
    {
        self.name.as_str()
    }

    pub fn root(&self) -> (r: Handle)
        ensures
            r == self@.root,
    {
        self.root
    }

    /// The pose cached by the latest frame.
    pub fn pose(&self) -> (r: &Pose)
        ensures
            r@ == self@.pose,
    {
        &self.pose
    }

    /// Recomputes the cached pose from this state's pose-graph root.
    pub fn update(
        &mut self,
        nodes: &Pool<PoseNode>,
        params: &ParameterContainer,
        animations: &AnimationContainer,
    )
        requires
            graph_wf(nodes@),
            graph_anims_wf(nodes@, animations@.len() as int),
            handle_valid(old(self)@.root, nodes@.len() as int),
        ensures
            final(self)@ == (StateView {
                pose: eval_node_at(nodes@, params@, animations@, old(self)@.root.index as int),
                ..old(self)@
            }),
    {
        self.pose = eval_node(nodes, params, animations, self.root);
    }
}

/// A directed, timed edge between two states, gated by a named Rule
/// parameter. Time is counted in integer ticks of the caller's unit.
pub struct Transition {
    name: String,
    transition_time: u32,
    elapsed_time: u32,
    source: Handle,
    dest: Handle,
    rule: String,
    blend_factor: Scalar,
}

/// Mathematical form of [`Transition`].
#[verifier::ext_equal]
pub struct TransitionView {
    pub name: Seq<char>,
    pub transition_time: u32,
    pub elapsed_time: u32,
    pub source: Handle,
    pub dest: Handle,
    pub rule: Seq<char>,
    pub blend_factor: Scalar,
}

impl View for Transition {
    type V = TransitionView;

    closed spec fn view(&self) -> TransitionView {
        TransitionView {
            name: self.name@,
            transition_time: self.transition_time,
            elapsed_time: self.elapsed_time,
            source: self.source,
            dest: self.dest,
            rule: self.rule@,
            blend_factor: self.blend_factor,
        }
    }
}

/// The timing invariant every transition keeps: the timer never leaves
/// `[0, transition_time]` and the blend factor is exactly
/// `elapsed_time / transition_time`.
pub open spec fn transition_timing_wf(t: TransitionView) -> bool {
    &&& t.transition_time >= 1
    &&& t.elapsed_time <= t.transition_time
    &&& t.blend_factor == (Scalar { num: t.elapsed_time as i64, den: t.transition_time as i64 })
}

/// The transition after its timer advanced by `dt` ticks: elapsed time
/// clamps at the total, and the blend factor is recomputed from it.
pub open spec fn transition_advanced(t: TransitionView, dt: u32) -> TransitionView {
    let e = if t.elapsed_time + dt <= t.transition_time {
        (t.elapsed_time + dt) as u32
    } else {
        t.transition_time
    };
    TransitionView {
        elapsed_time: e,
        blend_factor: Scalar { num: e as i64, den: t.transition_time as i64 },
        ..t
    }
}

/// The transition with its timer cleared.
pub open spec fn transition_cleared(t: TransitionView) -> TransitionView {
    TransitionView {
        elapsed_time: 0,
        blend_factor: Scalar { num: 0, den: t.transition_time as i64 },
        ..t
    }
}

impl Transition {
    /// A transition from `src` to `dest` taking `time` ticks, gated by the
    /// Rule parameter named `rule`. The timer starts cleared.
    pub fn new(name: &str, src: Handle, dest: Handle, time: u32, rule: &str) -> (r: Transition)
        requires
            time >= 1,
        ensures
            r@.name == name@,
            r@.transition_time == time,
            r@.elapsed_time == 0,
            r@.source == src,
            r@.dest == dest,
            r@.rule == rule@,
            r@.blend_factor == (Scalar { num: 0, den: time as i64 }),
            transition_timing_wf(r@),
    {
        Transition {
            name: name.to_owned(),
            transition_time: time,
            elapsed_time: 0,
            source: src,
            dest,
            rule: rule.to_owned(),
            blend_factor: Scalar { num: 0, den: time as i64 },
        }
    }

    pub fn name(&self) -> (r: &str)
        ensures
            r@ == self@.name,
    {
        self.name.as_str()
    }

    pub fn transition_time(&self) -> (r: u32)
        ensures
            r == self@.transition_time,
    {
        self.transition_time
    }

    pub fn elapsed_time(&self) -> (r: u32)
        ensures
            r == self@.elapsed_time,
    {
        self.elapsed_time
    }

    pub fn source(&self) -> (r: Handle)
        ensures
            r == self@.source,
    {
        self.source
    }

    pub fn dest(&self) -> (r: Handle)
        ensures
            r == self@.dest,
    {
        self.dest
    }

    pub fn rule(&self) -> (r: &str)
        ensures
            r@ == self@.rule,
    {
        self.rule.as_str()
    }

    /// `elapsed_time / transition_time`, normalized transition progress:
    /// zero evaluates the source pose alone, one the destination alone.
    pub fn blend_factor(&self) -> (r: Scalar)
        ensures
            r == self@.blend_factor,
    {
        self.blend_factor
    }

    /// This transition with its timer cleared.
    fn cleared(&self) -> (r: Transition)
        ensures
            r@ == transition_cleared(self@),
    {
        Transition {
            name: self.name.clone(),
            transition_time: self.transition_time,
            elapsed_time: 0,
            source: self.source,
            dest: self.dest,
            rule: self.rule.clone(),
            blend_factor: Scalar { num: 0, den: self.transition_time as i64 },
        }
    }

    /// This transition with its timer advanced by `dt` ticks, clamped at the
    /// total, and the blend factor recomputed.
    fn advanced(&self, dt: u32) -> (r: Transition)
        requires
            transition_timing_wf(self@),
        ensures
            r@ == transition_advanced(self@, dt),
            transition_timing_wf(r@),
    {
        let remaining = self.transition_time - self.elapsed_time;
        let elapsed = if dt <= remaining {
            self.elapsed_time + dt
        } else {
            self.transition_time
        };
        Transition {
            name: self.name.clone(),
            transition_time: self.transition_time,
            elapsed_time: elapsed,
            source: self.source,
            dest: self.dest,
            rule: self.rule.clone(),
            blend_factor: Scalar { num: elapsed as i64, den: self.transition_time as i64 },
        }
    }

    /// Whether the transition has run its full time.
    pub fn is_done(&self) -> (r: bool)
        ensures
            r == (self@.elapsed_time == self@.transition_time),
    {
        self.elapsed_time == self.transition_time
    }
}

/// Mathematical form of [`Machine`]: every arena as a sequence, the
/// parameter table as a map, the event queue as a sequence plus its bound.
#[verifier::ext_equal]
pub struct MachineView {
    pub nodes: Seq<PoseNodeView>,
    pub states: Seq<StateView>,
    pub transitions: Seq<TransitionView>,
    pub final_pose: PoseView,
    pub active_state: Handle,
    pub entry_state: Handle,
    pub active_transition: Handle,
    pub parameters: Map<Seq<char>, Parameter>,
    pub events: Seq<Event>,
    pub event_limit: u32,
    pub debug: bool,
}

/// Well-formedness of a machine: every stored handle is live, every
/// transition keeps its timing invariant, and the event queue respects its
/// bound. Construction through the API keeps all of it except where a caller
/// hands in fabricated handles, which is a precondition violation of the
/// per-frame update.
pub open spec fn state_entry_wf(states: Seq<StateView>, nodes_len: int, i: int) -> bool {
    handle_valid(states[i].root, nodes_len)
}

pub open spec fn transition_entry_wf(
    transitions: Seq<TransitionView>,
    states_len: int,
    i: int,
) -> bool {
    &&& handle_valid(transitions[i].source, states_len)
    &&& handle_valid(transitions[i].dest, states_len)
    &&& transition_timing_wf(transitions[i])
}

pub open spec fn machine_wf(m: MachineView) -> bool {
    &&& graph_wf(m.nodes)
    &&& forall|i: int|
        0 <= i < m.states.len() ==> #[trigger] state_entry_wf(m.states, m.nodes.len() as int, i)
    &&& forall|i: int|
        0 <= i < m.transitions.len() ==> #[trigger] transition_entry_wf(
            m.transitions,
            m.states.len() as int,
            i,
        )
    &&& m.active_state.spec_is_some() ==> handle_valid(m.active_state, m.states.len() as int)
    &&& m.entry_state.spec_is_some() ==> handle_valid(m.entry_state, m.states.len() as int)
    &&& m.active_transition.spec_is_some() ==> handle_valid(
        m.active_transition,
        m.transitions.len() as int,
    )
    &&& m.events.len() <= m.event_limit
    &&& m.transitions.len() <= u32::MAX
}

/// Every state's cached pose recomputed from its pose-graph root. All states
/// are kept warm, not only the active one, so a transition into any of them
/// is instant.
pub open spec fn refreshed_states(m: MachineView, anims: Seq<PoseView>) -> Seq<StateView> {
    Seq::new(
        m.states.len(),
        |i: int|
            StateView {
                pose: eval_node_at(m.nodes, m.parameters, anims, m.states[i].root.index as int),
                ..m.states[i]
            },
    )
}

/// Whether transition `i` may activate now: its source is the active state,
/// it is no self-transition, and its rule parameter holds `Rule(true)`.
pub open spec fn eligible(m: MachineView, i: int) -> bool {
    &&& m.transitions[i].dest != m.active_state
    &&& m.transitions[i].source == m.active_state
    &&& m.parameters.contains_key(m.transitions[i].rule)
    &&& m.parameters[m.transitions[i].rule] == Parameter::Rule(true)
}

/// The first eligible transition at index `k` or beyond, scanning in
/// insertion order.
pub open spec fn first_eligible_from(m: MachineView, k: int) -> Option<int>
    decreases m.transitions.len() - k,
{
    if k < 0 || k >= m.transitions.len() {
        None
    } else if eligible(m, k) {
        Some(k)
    } else {
        first_eligible_from(m, k + 1)
    }
}

/// The machine after the transition-search phase: when no transition is
/// active, the first eligible one (insertion order, first match wins)
/// activates. Activation emits `StateLeave` of the active state and
/// `StateEnter` of the transition's source state — the source, not the
/// destination: this event pairing reproduces the long-standing behaviour
/// downstream consumers rely on — then clears the active state and records
/// the active transition.
pub open spec fn spec_search(m: MachineView) -> MachineView {
    if m.active_transition.spec_is_none() {
        match first_eligible_from(m, 0) {
            Some(i) => MachineView {
                events: pushed(
                    pushed(m.events, m.event_limit, Event::StateLeave(m.active_state)),
                    m.event_limit,
                    Event::StateEnter(m.transitions[i].source),
                ),
                active_state: Handle::spec_none(),
                active_transition: Handle { index: i as u32, generation: FIRST_GENERATION },
                ..m
            },
            None => m,
        }
    } else {
        m
    }
}

/// The machine after the blend-or-pass-through phase. With a transition
/// active the final pose cross-fades its source and destination states —
/// source at weight `1 - blend_factor` first, then destination at
/// `blend_factor`, preserving fold order — and the timer advances, clamped;
/// a finished transition clears its own timer, steps the active state to its
/// destination and emits `ActiveStateChanged`. With no active transition the
/// final pose is simply the active state's cached pose.
pub open spec fn spec_progress(m: MachineView, dt: u32) -> MachineView {
    if m.active_transition.spec_is_some() {
        let ti = m.active_transition.index as int;
        let t = m.transitions[ti];
        let fade_out = Scalar {
            num: (t.transition_time - t.elapsed_time) as i64,
            den: t.transition_time as i64,
        };
        let fp = PoseView::neutral().blended(
            m.states[t.source.index as int].pose,
            fade_out,
        ).blended(m.states[t.dest.index as int].pose, t.blend_factor);
        let t2 = transition_advanced(t, dt);
        if t2.elapsed_time == t2.transition_time {
            MachineView {
                final_pose: fp,
                transitions: m.transitions.update(ti, transition_cleared(t2)),
                active_transition: Handle::spec_none(),
                active_state: t.dest,
                events: pushed(m.events, m.event_limit, Event::ActiveStateChanged(t.dest)),
                ..m
            }
        } else {
            MachineView { final_pose: fp, transitions: m.transitions.update(ti, t2), ..m }
        }
    } else {
        MachineView { final_pose: m.states[m.active_state.index as int].pose, ..m }
    }
}

/// One whole frame of the machine: reset the final pose, and — unless the
/// machine is empty of both an active state and an active transition —
/// refresh every state's cached pose, search for a transition to activate,
/// then blend or pass through.
pub open spec fn spec_evaluate(m: MachineView, anims: Seq<PoseView>, dt: u32) -> MachineView {
    let m0 = MachineView { final_pose: PoseView::neutral(), ..m };
    if m.active_state.spec_is_some() || m.active_transition.spec_is_some() {
        let m1 = MachineView { states: refreshed_states(m0, anims), ..m0 };
        spec_progress(spec_search(m1), dt)
    } else {
        m0
    }
}

/// The machine after `reset`: every transition's timer cleared and the
/// active state restored to the entry state.
pub open spec fn spec_reset(m: MachineView) -> MachineView {
    MachineView {
        transitions: Seq::new(
            m.transitions.len(),
            |i: int| transition_cleared(m.transitions[i]),
        ),
        active_state: m.entry_state,
        ..m
    }
}

proof fn lemma_first_eligible_found(m: MachineView, k: int, i: int)
    requires
        0 <= k <= i < m.transitions.len(),
        eligible(m, i),
        forall|j: int| k <= j < i ==> !eligible(m, j),
    ensures
        first_eligible_from(m, k) == Some(i),
    decreases i - k,
{
    if k < i {
        lemma_first_eligible_found(m, k + 1, i);
    }
}

proof fn lemma_first_eligible_none(m: MachineView, k: int)
    requires
        0 <= k,
        forall|j: int| k <= j < m.transitions.len() ==> !eligible(m, j),
    ensures
        first_eligible_from(m, k) is None,
    decreases m.transitions.len() - k,
{
    if k < m.transitions.len() {
        lemma_first_eligible_none(m, k + 1);
    }
}

/// Top-level orchestrator: owns the pose graph, the states, the
/// transitions, the parameter table and the event queue, and advances them
/// one frame at a time.
pub struct Machine {
    nodes: Pool<PoseNode>,
    states: Pool<State>,
    transitions: Pool<Transition>,
    final_pose: Pose,
    active_state: Handle,
    entry_state: Handle,
    active_transition: Handle,
    parameters: ParameterContainer,
    events: LimitedEventQueue,
    debug: bool,
}

/// Capacity of a machine's event queue.
pub const EVENT_QUEUE_LIMIT: u32 = 2048;

impl View for Machine {
    type V = MachineView;

    closed spec fn view(&self) -> MachineView {
        MachineView {
            nodes: self.nodes@,
            states: self.states@,
            transitions: self.transitions@,
            final_pose: self.final_pose@,
            active_state: self.active_state,
            entry_state: self.entry_state,
            active_transition: self.active_transition,
            parameters: self.parameters@,
            events: self.events@,
            event_limit: self.events.spec_limit(),
            debug: self.debug,
        }
    }
}

impl Machine {
    /// An empty machine: no nodes, states or transitions, a neutral final
    /// pose, no active or entry state, and an empty event queue.
    pub fn new() -> (r: Machine)
        ensures
            r@.nodes == Seq::<PoseNodeView>::empty(),
            r@.states == Seq::<StateView>::empty(),
            r@.transitions == Seq::<TransitionView>::empty(),
            r@.final_pose == PoseView::neutral(),
            r@.active_state == Handle::spec_none(),
            r@.entry_state == Handle::spec_none(),
            r@.active_transition == Handle::spec_none(),
            r@.parameters == Map::<Seq<char>, Parameter>::empty(),
            r@.events == Seq::<Event>::empty(),
            r@.event_limit == EVENT_QUEUE_LIMIT,
            r@.debug == false,
            machine_wf(r@),
    {
        Machine {
            nodes: Pool::new(),
            states: Pool::new(),
            transitions: Pool::new(),
            final_pose: Pose::neutral(),
            active_state: Handle::none(),
            entry_state: Handle::none(),
            active_transition: Handle::none(),
            parameters: ParameterContainer::new(),
            events: LimitedEventQueue::new(EVENT_QUEUE_LIMIT),
            debug: false,
        }
    }

    /// Adds a pose-graph node. A combiner must only reference nodes that
    /// already exist, so the graph stays acyclic.
    pub fn add_node(&mut self, node: PoseNode) -> (h: Handle)
        requires
            old(self)@.nodes.len() < u32::MAX,
        ensures
            final(self)@ == (MachineView { nodes: old(self)@.nodes.push(node@), ..old(self)@ }),
            h.index as int == old(self)@.nodes.len(),
            h.generation == FIRST_GENERATION,
            h.spec_is_some(),
    {
        let h = self.nodes.spawn(node);
        proof {
            assert(self@ =~= (MachineView { nodes: old(self)@.nodes.push(node@), ..old(self)@ }));
        }
        h
    }

    /// Inserts or overwrites a parameter; the last write wins, including
    /// across variants.
    pub fn set_parameter(&mut self, id: &str, parameter: Parameter)
        ensures
            final(self)@ == (MachineView {
                parameters: old(self)@.parameters.insert(id@, parameter),
                ..old(self)@
            }),
    {
        self.parameters.set(id, parameter);
        proof {
            assert(self@ =~= (MachineView {
                parameters: old(self)@.parameters.insert(id@, parameter),
                ..old(self)@
            }));
        }
    }

    /// Makes `entry_state` both the entry state and the active state.
    pub fn set_entry_state(&mut self, entry_state: Handle)
        ensures
            final(self)@ == (MachineView {
                active_state: entry_state,
                entry_state,
                ..old(self)@
            }),
    {
        self.active_state = entry_state;
        self.entry_state = entry_state;
        proof {
            assert(self@ =~= (MachineView {
                active_state: entry_state,
                entry_state,
                ..old(self)@
            }));
        }
    }

    /// Switches the debug flag.
    pub fn debug(&mut self, state: bool)
        ensures
            final(self)@ == (MachineView { debug: state, ..old(self)@ }),
    {
        self.debug = state;
        proof {
            assert(self@ =~= (MachineView { debug: state, ..old(self)@ }));
        }
    }

    /// Adds a state. The first state added becomes the active state unless
    /// one was already set.
    pub fn add_state(&mut self, state: State) -> (h: Handle)
        requires
            old(self)@.states.len() < u32::MAX,
        ensures
            final(self)@ == (MachineView {
                states: old(self)@.states.push(state@),
                active_state: if old(self)@.active_state.spec_is_none() {
                    h
                } else {
                    old(self)@.active_state
                },
                ..old(self)@
            }),
            h.index as int == old(self)@.states.len(),
            h.generation == FIRST_GENERATION,
            h.spec_is_some(),
    {
        let h = self.states.spawn(state);
        if self.active_state.is_none() {
            self.active_state = h;
        }
        proof {
            assert(self@ =~= (MachineView {
                states: old(self)@.states.push(state@),
                active_state: if old(self)@.active_state.spec_is_none() {
                    h
                } else {
                    old(self)@.active_state
                },
                ..old(self)@
            }));
        }
        h
    }

    /// Adds a transition to the scan order.
    pub fn add_transition(&mut self, transition: Transition)
        requires
            old(self)@.transitions.len() < u32::MAX,
        ensures
            final(self)@ == (MachineView {
                transitions: old(self)@.transitions.push(transition@),
                ..old(self)@
            }),
    {
        let _ = self.transitions.spawn(transition);
        proof {
            assert(self@ =~= (MachineView {
                transitions: old(self)@.transitions.push(transition@),
                ..old(self)@
            }));
        }
    }

    /// A live state.
    pub fn get_state(&self, state: Handle) -> (r: &State)
        requires
            handle_valid(state, self@.states.len() as int),
        ensures
            r@ == self@.states[state.index as int],
    {
        self.states.at(state.index as usize)
    }

    /// Removes and returns the oldest queued event.
    pub fn pop_event(&mut self) -> (r: Option<Event>)
        ensures
            match r {
                Some(e) => old(self)@.events.len() > 0 && e == old(self)@.events[0]
                    && final(self)@ == (MachineView {
                    events: old(self)@.events.drop_first(),
                    ..old(self)@
                }),
                None => old(self)@.events.len() == 0 && final(self)@ == old(self)@,
            },
    {
        let r = self.events.pop();
        proof {
            if r is Some {
                assert(self@ =~= (MachineView {
                    events: old(self)@.events.drop_first(),
                    ..old(self)@
                }));
            } else {
                assert(self@ =~= old(self)@);
            }
        }
        r
    }

    /// Clears every transition timer and restores the active state to the
    /// entry state.
    pub fn reset(&mut self)
        ensures
            final(self)@ == spec_reset(old(self)@),
    {
        let n = self.transitions.len();
        let mut i: usize = 0;
        #[verifier::loop_isolation(false)]
        while i < n
            invariant
                i <= n,
                n == self.transitions@.len(),
                self@ == (MachineView { transitions: self.transitions@, ..old(self)@ }),
                forall|j: int|
                    0 <= j < i ==> self.transitions@[j] == transition_cleared(
                        old(self)@.transitions[j],
                    ),
                forall|j: int| i <= j < n ==> self.transitions@[j] == old(self)@.transitions[j],
            decreases n - i,
        {
            let t = self.transitions.at(i).cleared();
            self.transitions.put(i, t);
            i = i + 1;
        }
        self.active_state = self.entry_state;
        proof {
            assert(self@.transitions =~= spec_reset(old(self)@).transitions);
            assert(self@ =~= spec_reset(old(self)@));
        }
    }

    /// The pose-graph arena.
    pub fn nodes(&self) -> (r: &Pool<PoseNode>)
        ensures
            r@ == self@.nodes,
    {
        &self.nodes
    }

    /// The active state's handle; null while a transition is in flight.
    pub fn active_state(&self) -> (r: Handle)
        ensures
            r == self@.active_state,
    {
        self.active_state
    }

    /// The active transition's handle, if one is in flight.
    pub fn active_transition(&self) -> (r: Handle)
        ensures
            r == self@.active_transition,
    {
        self.active_transition
    }

    /// The transition arena.
    pub fn transitions(&self) -> (r: &Pool<Transition>)
        ensures
            r@ == self@.transitions,
    {
        &self.transitions
    }
}

impl Machine {
    /// Index of the first transition eligible to activate now, scanning in
    /// insertion order: first match wins, never priority-sorted.
    fn find_first_eligible(&self) -> (r: Option<usize>)
        ensures
            match r {
                Some(i) => i < self@.transitions.len() && first_eligible_from(self@, 0) == Some(
                    i as int,
                ),
                None => first_eligible_from(self@, 0) is None,
            },
    {
        let n = self.transitions.len();
        let mut i: usize = 0;
        #[verifier::loop_isolation(false)]
        while i < n
            invariant
                i <= n,
                forall|j: int| 0 <= j < i ==> !eligible(self@, j),
            decreases n - i,
        {
            let t = self.transitions.at(i);
            if t.dest != self.active_state && t.source == self.active_state {
                match self.parameters.get(t.rule.as_str()) {
                    Some(Parameter::Rule(true)) => {
                        proof {
                            assert(eligible(self@, i as int));
                            lemma_first_eligible_found(self@, 0, i as int);
                        }
                        return Some(i);
                    },
                    _ => {
                        proof {
                            assert(!eligible(self@, i as int));
                        }
                    },
                }
            } else {
                proof {
                    assert(!eligible(self@, i as int));
                }
            }
            i = i + 1;
        }
        proof {
            lemma_first_eligible_none(self@, 0);
        }
        None
    }

    /// One frame of the machine, exactly [`spec_evaluate`] of its view:
    /// refresh every state's cached pose, activate the first eligible
    /// transition when none is active, then cross-fade the active
    /// transition or pass the active state's pose through, emitting events
    /// along the way. Returns the final output pose.
    ///
    /// The machine must be well-formed — every stored handle live, every
    /// pass-through node naming a live animation of `animations`. Handles
    /// fabricated outside this machine break that precondition; the machine
    /// does not check them at runtime.
    pub fn evaluate_pose(&mut self, animations: &AnimationContainer, dt: u32) -> (r: &Pose)
        requires
            machine_wf(old(self)@),
            graph_anims_wf(old(self)@.nodes, animations@.len() as int),
        ensures
            final(self)@ == spec_evaluate(old(self)@, animations@, dt),
            r@ == spec_evaluate(old(self)@, animations@, dt).final_pose,
    {
        self.final_pose.reset();
        let ghost m0 = MachineView { final_pose: PoseView::neutral(), ..old(self)@ };
        proof {
            assert(self@ =~= m0);
        }
        if self.active_state.is_some() || self.active_transition.is_some() {
            // Keep every state warm, not only the active one, so a
            // transition into any of them is instant.
            let n = self.states.len();
            let mut i: usize = 0;
            #[verifier::loop_isolation(false)]
            while i < n
                invariant
                    i <= n,
                    n == self@.states.len(),
                    self@ == (MachineView { states: self.states@, ..m0 }),
                    forall|j: int|
                        0 <= j < i ==> self.states@[j] == refreshed_states(m0, animations@)[j],
                    forall|j: int| i <= j < n ==> self.states@[j] == m0.states[j],
                decreases n - i,
            {
                let root = self.states.at(i).root;
                proof {
                    assert(m0.states[i as int].root == root);
                    assert(state_entry_wf(old(self)@.states, old(self)@.nodes.len() as int, i as int));
                    assert(handle_valid(root, self@.nodes.len() as int));
                }
                let pose = eval_node(&self.nodes, &self.parameters, animations, root);
                let name = self.states.at(i).name.clone();
                let st = State { name, root, pose };
                self.states.put(i, st);
                proof {
                    assert(self.states@[i as int] =~= refreshed_states(m0, animations@)[i as int]);
                }
                i = i + 1;
            }
            let ghost m1 = MachineView { states: refreshed_states(m0, animations@), ..m0 };
            proof {
                assert(self.states@ =~= refreshed_states(m0, animations@));
                assert(self@ =~= m1);
            }
            // Look for a transition to activate; first match in insertion
            // order wins.
            if self.active_transition.is_none() {
                match self.find_first_eligible() {
                    Some(i) => {
                        let src = self.transitions.at(i).source;
                        let active = self.active_state;
                        self.events.push(Event::StateLeave(active));
                        self.events.push(Event::StateEnter(src));
                        self.active_state = Handle::none();
                        self.active_transition = Handle {
                            index: i as u32,
                            generation: FIRST_GENERATION,
                        };
                    },
                    None => {},
                }
            }
            let ghost m2 = spec_search(m1);
            proof {
                assert(self@ =~= m2);
            }
            if self.active_transition.is_some() {
                proof {
                    assert(handle_valid(m2.active_transition, m2.transitions.len() as int));
                }
                let ti = self.active_transition.index as usize;
                proof {
                    assert(transition_entry_wf(
                        old(self)@.transitions,
                        old(self)@.states.len() as int,
                        ti as int,
                    ));
                    assert(transition_timing_wf(m2.transitions[ti as int]));
                }
                let t_source = self.transitions.at(ti).source;
                let t_dest = self.transitions.at(ti).dest;
                let t_elapsed = self.transitions.at(ti).elapsed_time;
                let t_total = self.transitions.at(ti).transition_time;
                let t_bf = self.transitions.at(ti).blend_factor;
                proof {
                    assert(handle_valid(t_source, m2.states.len() as int));
                    assert(handle_valid(t_dest, m2.states.len() as int));
                }
                // Cross-fade: source at 1 - blend_factor first, then
                // destination at blend_factor; fold order matters.
                let fade_out = Scalar { num: (t_total - t_elapsed) as i64, den: t_total as i64 };
                let sp = clone_pose(&self.states.at(t_source.index as usize).pose);
                self.final_pose.blend_with(&sp, fade_out);
                let dp = clone_pose(&self.states.at(t_dest.index as usize).pose);
                self.final_pose.blend_with(&dp, t_bf);
                let t2 = self.transitions.at(ti).advanced(dt);
                let done = t2.is_done();
                if done {
                    let t3 = t2.cleared();
                    self.transitions.put(ti, t3);
                    self.active_transition = Handle::none();
                    self.active_state = t_dest;
                    self.events.push(Event::ActiveStateChanged(t_dest));
                } else {
                    self.transitions.put(ti, t2);
                }
                proof {
                    assert(self@ =~= spec_progress(m2, dt));
                }
            } else {
                // Steady state: the final pose is the active state's cached
                // pose, copied out.
                proof {
                    assert(m2.active_state.spec_is_some());
                    assert(handle_valid(m2.active_state, m2.states.len() as int));
                }
                let si = self.active_state.index as usize;
                let sp = clone_pose(&self.states.at(si).pose);
                self.final_pose = sp;
                proof {
                    assert(self@ =~= spec_progress(m2, dt));
                }
            }
        }
        proof {
            assert(self@ =~= spec_evaluate(old(self)@, animations@, dt));
        }
        &self.final_pose
    }
}

impl Machine {
    /// Runtime check of [`machine_wf`]: code that assembled a machine from
    /// handles it did not get from this machine can confirm the per-frame
    /// update's precondition before calling it.
    pub fn is_well_formed(&self) -> (r: bool)
        ensures
            r == machine_wf(self@),
    {
        if !crate::nodes::check_graph_wf(&self.nodes) {
            return false;
        }
        let nodes_len = self.nodes.len();
        let states_len = self.states.len();
        let ns = states_len;
        let mut i: usize = 0;
        #[verifier::loop_isolation(false)]
        while i < ns
            invariant
                i <= ns,
                forall|k: int|
                    0 <= k < i ==> #[trigger] state_entry_wf(
                        self@.states,
                        self@.nodes.len() as int,
                        k,
                    ),
            decreases ns - i,
        {
            let root = self.states.at(i).root;
            if !(root.generation == FIRST_GENERATION && (root.index as usize) < nodes_len) {
                proof {
                    assert(!state_entry_wf(self@.states, self@.nodes.len() as int, i as int));
                }
                return false;
            }
            i = i + 1;
        }
        let nt = self.transitions.len();
        if nt > u32::MAX as usize {
            return false;
        }
        let mut i: usize = 0;
        #[verifier::loop_isolation(false)]
        while i < nt
            invariant
                i <= nt,
                forall|k: int|
                    0 <= k < i ==> #[trigger] transition_entry_wf(
                        self@.transitions,
                        self@.states.len() as int,
                        k,
                    ),
            decreases nt - i,
        {
            let t = self.transitions.at(i);
            let handles_ok = t.source.generation == FIRST_GENERATION && (t.source.index
                as usize) < states_len && t.dest.generation == FIRST_GENERATION && (t.dest.index
                as usize) < states_len;
            let timing_ok = t.transition_time >= 1 && t.elapsed_time <= t.transition_time
                && t.blend_factor == (Scalar {
                num: t.elapsed_time as i64,
                den: t.transition_time as i64,
            });
            if !(handles_ok && timing_ok) {
                proof {
                    assert(!transition_entry_wf(
                        self@.transitions,
                        self@.states.len() as int,
                        i as int,
                    ));
                }
                return false;
            }
            i = i + 1;
        }
        if self.active_state.is_some() && !(self.active_state.generation == FIRST_GENERATION && (
        self.active_state.index as usize) < states_len) {
            return false;
        }
        if self.entry_state.is_some() && !(self.entry_state.generation == FIRST_GENERATION && (
        self.entry_state.index as usize) < states_len) {
            return false;
        }
        if self.active_transition.is_some() && !(self.active_transition.generation
            == FIRST_GENERATION && (self.active_transition.index as usize) < nt) {
            return false;
        }
        if self.events.len() > self.events.limit() as usize {
            return false;
        }
        true
    }

    /// Runtime check that every pass-through node of the graph names a live
    /// animation of `animations`: the other precondition of the per-frame
    /// update.
    pub fn animations_compatible(&self, animations: &AnimationContainer) -> (r: bool)
        ensures
            r == crate::nodes::graph_anims_wf(self@.nodes, animations@.len() as int),
    {
        crate::nodes::check_graph_anims_wf(&self.nodes, animations.len())
    }
}

} // verus!
