//! Steering decisions: a small state machine per agent that picks targets on
//! a fixed cadence and walks a queue of waypoints.

use vstd::prelude::*;
use crate::entity::WebEntity;
use crate::store::has_id;
use crate::store::EntityStore;

verus! {

/// Time between two decisions of an agent, in microseconds.
pub const DECISION_INTERVAL_US: u64 = 500_000;
/// Distance from a target, in world units, within which it counts as reached.
pub const ARRIVAL_THRESHOLD: u32 = 5;

/// What an agent is up to.
#[derive(Clone, Copy, Debug, PartialEq, Eq, Structural)]
pub enum AiState {
    Idle,
    Wander,
    Seek,
    Flee,
    Follow,
}

/// A point of the world, in whole units.
#[derive(Clone, Copy, Debug, PartialEq, Eq, Structural)]
pub struct Waypoint {
    pub x: i32,
    pub y: i32,
}

/// The steering capability of one entity.
#[derive(Debug)]
pub struct WebAI {
    /// Identifier of the entity that is steered.
    pub entity_id: u32,
    pub state: AiState,
    pub enabled: bool,
    /// Microseconds until the next decision.
    pub decision_timer: u64,
    pub target: Option<Waypoint>,
    /// Waypoints still to visit, the next one first.
    pub path: Vec<Waypoint>,
}

/// Mathematical content of a [`WebAI`].
pub struct AgentState {
    pub entity_id: u32,
    pub state: AiState,
    pub enabled: bool,
    pub decision_timer: u64,
    pub target: Option<Waypoint>,
    pub path: Seq<Waypoint>,
}

/// Whether the decision timer runs out within `delta_us` microseconds.
pub open spec fn decision_due(a: AgentState, delta_us: u64) -> bool {
    a.enabled && a.decision_timer <= delta_us
}

/// What the state's decision does to path and target. A wandering agent with
/// nothing left to visit takes `wander_point` as waypoint and target; a
/// seeking or following agent targets the position of the entity pursued where there is
/// one; the other states acquire nothing.
pub open spec fn decision(a: AgentState, wander_point: Waypoint, pursued: Option<Waypoint>)
    -> AgentState {
    match a.state {
        AiState::Wander => {
            if a.path.len() == 0 {
                AgentState { path: a.path.push(wander_point), target: Some(wander_point), ..a }
            } else {
                a
            }
        },
        AiState::Seek | AiState::Follow => {
            match pursued {
                Some(p) => AgentState { target: Some(p), ..a },
                None => a,
            }
        },
        AiState::Idle | AiState::Flee => a,
    }
}

/// The agent after `delta_us` microseconds of its decision timer: the timer
/// counts down, and when it runs out it starts over and the decision is taken once.
pub open spec fn decided(
    a: AgentState,
    delta_us: u64,
    wander_point: Waypoint,
    pursued: Option<Waypoint>,
) -> AgentState {
    if !a.enabled {
        a
    } else if a.decision_timer > delta_us {
        AgentState { decision_timer: (a.decision_timer - delta_us) as u64, ..a }
    } else {
        decision(AgentState { decision_timer: DECISION_INTERVAL_US, ..a }, wander_point, pursued)
    }
}

/// The point to steer towards this tick: the target, unless there is none,
/// it has been reached, or the agent is switched off.
pub open spec fn heading(a: AgentState, arrived: bool) -> Option<Waypoint> {
    if a.enabled && !arrived {
        a.target
    } else {
        None
    }
}

/// The agent after the steering step: on arrival the target is dropped and
/// the next waypoint, if any, leaves the queue and becomes the target.
pub open spec fn steered(a: AgentState, arrived: bool) -> AgentState {
    if a.enabled && a.target is Some && arrived {
        if a.path.len() > 0 {
            AgentState { target: Some(a.path[0]), path: a.path.remove(0), ..a }
        } else {
            AgentState { target: None, ..a }
        }
    } else {
        a
    }
}

impl WebAI {
    /// The agent's mathematical content.
    pub open spec fn view(&self) -> AgentState {
        AgentState {
            entity_id: self.entity_id,
            state: self.state,
            enabled: self.enabled,
            decision_timer: self.decision_timer,
            target: self.target,
            path: self.path@,
        }
    }

    /// An enabled agent in the given state, due for a decision at once, with
    /// no target and nothing to visit.
    pub fn new(entity_id: u32, state: AiState) -> (agent: Self)
        ensures
            agent@ == (AgentState {
                entity_id,
                state,
                enabled: true,
                decision_timer: 0,
                target: None,
                path: Seq::<Waypoint>::empty(),
            }),
    {
        WebAI {
            entity_id,
            state,
            enabled: true,
            decision_timer: 0,
            target: None,
            path: Vec::new(),
        }
    }

    /// Appends a waypoint to the end of the path.
    pub fn push_waypoint(&mut self, point: Waypoint)
        ensures
            final(self)@ == (AgentState { path: old(self)@.path.push(point), ..old(self)@ }),
    {
        self.path.push(point);
    }

    /// Runs the decision timer for `delta_us` microseconds and says whether a
    /// decision was taken. `wander_point` is a point of the world picked at
    /// random, `pursued` the position of the entity to seek or follow as it
    /// was when the steering phase began, if that entity still exists.
    pub fn decide(
        &mut self,
        delta_us: u64,
        wander_point: Waypoint,
        pursued: Option<Waypoint>,
    ) -> (took_decision: bool)
        ensures
            final(self)@ == decided(old(self)@, delta_us, wander_point, pursued),
            took_decision == decision_due(old(self)@, delta_us),
    {
        if !self.enabled {
            return false;
        }
        if self.decision_timer > delta_us {
            self.decision_timer = self.decision_timer - delta_us;
            return false;
        }
        self.decision_timer = DECISION_INTERVAL_US;
        match self.state {
            AiState::Wander => {
                if self.path.len() == 0 {
                    self.path.push(wander_point);
                    self.target = Some(wander_point);
                }
            },
            AiState::Seek | AiState::Follow => {
                match pursued {
                    Some(p) => {
                        self.target = Some(p);
                    },
                    None => {},
                }
            },
            AiState::Idle | AiState::Flee => {},
        }
        true
    }

    /// The steering step of a tick. `arrived` says whether the entity is
    /// within the arrival threshold of the current target. Returns the point
    /// to steer towards, if any.
    pub fn steer(&mut self, arrived: bool) -> (towards: Option<Waypoint>)
        ensures
            final(self)@ == steered(old(self)@, arrived),
            towards == heading(old(self)@, arrived),
    {
        if !self.enabled {
            return None;
        }
        match self.target {
            None => None,
            Some(t) => {
                if !arrived {
                    Some(t)
                } else {
                    if self.path.len() > 0 {
                        let next = self.path.remove(0);
                        self.target = Some(next);
                    } else {
                        self.target = None;
                    }
                    None
                }
            },
        }
    }
}

/// The steering system: the agents of all steered entities, in the order in
/// which they were added.
#[derive(Debug)]
pub struct AIBehaviorModule {
    pub agents: Vec<WebAI>,
}

/// The wander point for agent `i`: the one given for it, or the origin of
/// the world where none is given.
pub open spec fn wander_point_at(points: Seq<Waypoint>, i: int) -> Waypoint {
    if 0 <= i < points.len() {
        points[i]
    } else {
        Waypoint { x: 0, y: 0 }
    }
}

/// Whether agent `i` has arrived: as reported for it, and not where nothing is reported.
pub open spec fn arrived_at(arrivals: Seq<bool>, i: int) -> bool {
    0 <= i < arrivals.len() && arrivals[i]
}

/// The agents of `s` whose entity is among `entities`, in their order.
pub open spec fn agents_of_living(s: Seq<AgentState>, entities: Seq<WebEntity>) -> Seq<AgentState>
    decreases s.len(),
{
    if s.len() == 0 {
        Seq::empty()
    } else if has_id(entities, s.last().entity_id) {
        agents_of_living(s.drop_last(), entities).push(s.last())
    } else {
        agents_of_living(s.drop_last(), entities)
    }
}

impl AIBehaviorModule {
    /// The agents' mathematical content, in their order.
    pub open spec fn view(&self) -> Seq<AgentState> {
        Seq::new(self.agents@.len(), |i: int| self.agents@[i]@)
    }

    /// A system without agents.
    pub fn new() -> (module: Self)
        ensures
            module@ == Seq::<AgentState>::empty(),
    {
        let module = AIBehaviorModule { agents: Vec::new() };
        assert(module@ =~= Seq::<AgentState>::empty());
        module
    }

    /// Gives the entity with identifier `entity_id` a fresh agent in the given state.
    pub fn add_agent(&mut self, entity_id: u32, state: AiState)
        ensures
            final(self)@ == old(self)@.push(
                AgentState {
                    entity_id,
                    state,
                    enabled: true,
                    decision_timer: 0,
                    target: None,
                    path: Seq::<Waypoint>::empty(),
                },
            ),
    {
        self.agents.push(WebAI::new(entity_id, state));
        assert(self@ =~= old(self)@.push(self.agents@[self.agents@.len() - 1]@));
    }

    /// The decision step of a tick for every agent. All agents see the same
    /// `pursued` position, taken before any of them moved; agent `i` wanders
    /// to `wander_points[i]` where it needs a new point.
    pub fn decide_all(
        &mut self,
        delta_us: u64,
        wander_points: &Vec<Waypoint>,
        pursued: Option<Waypoint>,
    )
        ensures
            final(self)@.len() == old(self)@.len(),
            forall|i: int|
                0 <= i < old(self)@.len() ==> #[trigger] final(self)@[i] == decided(
                    old(self)@[i],
                    delta_us,
                    wander_point_at(wander_points@, i),
                    pursued,
                ),
    {
        let n: usize = self.agents.len();
        let mut i: usize = 0;
        while i < n
            invariant
                i <= n,
                n == self.agents.len(),
                n == old(self).agents.len(),
                forall|k: int|
                    0 <= k < i ==> (#[trigger] self.agents@[k])@ == decided(
                        old(self).agents@[k]@,
                        delta_us,
                        wander_point_at(wander_points@, k),
                        pursued,
                    ),
                forall|k: int| i <= k < n ==> #[trigger] self.agents@[k] == old(self).agents@[k],
            decreases n - i,
        {
            let point: Waypoint = if i < wander_points.len() {
                wander_points[i]
            } else {
                Waypoint { x: 0, y: 0 }
            };
            self.agents[i].decide(delta_us, point, pursued);
            i = i + 1;
        }
        assert forall|k: int| 0 <= k < old(self)@.len() implies #[trigger] self@[k] == decided(
            old(self)@[k],
            delta_us,
            wander_point_at(wander_points@, k),
            pursued,
        ) by {
            assert(self@[k] == self.agents@[k]@);
        }
    }

    /// The steering step of a tick for every agent: `arrivals[i]` says
    /// whether agent `i` is within the arrival threshold of its target. The
    /// result holds, for each agent, the point to steer towards, if any.
    pub fn steer_all(&mut self, arrivals: &Vec<bool>) -> (headings: Vec<Option<Waypoint>>)
        ensures
            final(self)@.len() == old(self)@.len(),
            headings@.len() == old(self)@.len(),
            forall|i: int|
                0 <= i < old(self)@.len() ==> #[trigger] final(self)@[i] == steered(
                    old(self)@[i],
                    arrived_at(arrivals@, i),
                ),
            forall|i: int|
                0 <= i < old(self)@.len() ==> #[trigger] headings@[i] == heading(
                    old(self)@[i],
                    arrived_at(arrivals@, i),
                ),
    {
        let n: usize = self.agents.len();
        let mut headings: Vec<Option<Waypoint>> = Vec::new();
        let mut i: usize = 0;
        while i < n
            invariant
                i <= n,
                n == self.agents.len(),
                n == old(self).agents.len(),
                headings@.len() == i,
                forall|k: int|
                    0 <= k < i ==> (#[trigger] self.agents@[k])@ == steered(
                        old(self).agents@[k]@,
                        arrived_at(arrivals@, k),
                    ),
                forall|k: int|
                    0 <= k < i ==> #[trigger] headings@[k] == heading(
                        old(self).agents@[k]@,
                        arrived_at(arrivals@, k),
                    ),
                forall|k: int| i <= k < n ==> #[trigger] self.agents@[k] == old(self).agents@[k],
            decreases n - i,
        {
            let arrived: bool = i < arrivals.len() && arrivals[i];
            let towards = self.agents[i].steer(arrived);
            headings.push(towards);
            i = i + 1;
        }
        assert forall|k: int| 0 <= k < old(self)@.len() implies #[trigger] self@[k] == steered(
            old(self)@[k],
            arrived_at(arrivals@, k),
        ) by {
            assert(self@[k] == self.agents@[k]@);
        }
        headings
    }

    /// Drops the agents whose entity is no longer in the store and keeps the
    /// others in their order.
    pub fn retain_living(&mut self, store: &EntityStore)
        requires
            store.wf(),
        ensures
            final(self)@ == agents_of_living(old(self)@, store.entities@),
    {
        let ghost before = self@;
        let ghost mut seen: int = 0;
        let mut i: usize = 0;
        while i < self.agents.len()
            invariant
                store.wf(),
                before == old(self)@,
                0 <= seen <= before.len(),
                i == agents_of_living(before.take(seen), store.entities@).len(),
                self@ == agents_of_living(before.take(seen), store.entities@) + before.skip(seen),
            decreases before.len() - seen,
        {
            proof {
                let next = before.take(seen + 1);
                assert(next.drop_last() =~= before.take(seen));
                assert(next.last() == before[seen]);
                assert(self@[i as int] == before.skip(seen)[0]);
                assert(self@[i as int] == self.agents@[i as int]@);
            }
            let ghost current = self@;
            if store.contains(self.agents[i].entity_id) {
                proof {
                    assert(self@ =~= agents_of_living(before.take(seen + 1), store.entities@)
                        + before.skip(seen + 1));
                    seen = seen + 1;
                }
                i = i + 1;
            } else {
                self.agents.remove(i);
                proof {
                    assert(self@ =~= current.remove(i as int));
                    assert(self@ =~= agents_of_living(before.take(seen + 1), store.entities@)
                        + before.skip(seen + 1));
                    seen = seen + 1;
                }
            }
        }
        proof {
            assert(seen == before.len());
            assert(before.take(seen) =~= before);
            assert(self@ =~= agents_of_living(before, store.entities@));
        }
    }
}

/// An agent following waypoints visits them in order: after arriving, the
/// former head of the path is the target and the rest of the path follows.
pub proof fn lemma_waypoints_in_order(a: AgentState)
    requires
        a.enabled,
        a.target is Some,
        a.path.len() > 0,
    ensures
        steered(a, true).target == Some(a.path[0]),
        steered(a, true).path == a.path.skip(1),
        heading(a, false) == a.target,
        steered(a, false) == a,
{
    assert(a.path.remove(0) =~= a.path.skip(1));
}

} // verus!
