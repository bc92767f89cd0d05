//! The game state: owns the entities and the systems, and runs the fixed
//! order of a tick around the work that the host does on positions.

use vstd::prelude::*;
use vstd::string::StringExecFns;
use crate::ai::agents_of_living;
use crate::ai::AIBehaviorModule;
use crate::ai::AgentState;
use crate::browser::BrowserInfo;
use crate::browser::MAX_QUALITY;
use crate::collision::player_hits;
use crate::collision::Cell;
use crate::collision::WebCollisionSystem;
use crate::collision::grid_ok;
use crate::collision::is_candidate;
use crate::collision::occupancy;
use crate::collision::PLAYER_HIT_SCORE;
use crate::entity::EntityType;
use crate::entity::WebEntity;
use crate::entity::WebHealth;
use crate::entity::WebPhysics;
use crate::governor::capped_delta;
use crate::governor::step;
use crate::governor::MonitorState;
use crate::governor::MAX_FRAME_TIME_US;
use crate::governor::TARGET_FPS;
use crate::governor::WebPerformanceMonitor;
use crate::input::movement;
use crate::input::WebInputSystem;
use crate::input::KEY_R;
use crate::input::KEY_SPACE;
use crate::input::KEY_TILDE;
use crate::names::kind_named;
use crate::names::object_label;
use crate::names::object_name;
use crate::particles::burst;
use crate::particles::burst_at;
use crate::particles::bursts;
use crate::particles::ticked;
use crate::particles::Burst;
use crate::particles::PoolState;
use crate::particles::WebParticle;
use crate::particles::WebParticleSystem;
use crate::particles::MAX_PARTICLES;
use crate::store::all_updated;
use crate::store::casualties;
use crate::store::has_id;
use crate::store::survivors;
use crate::store::EntityStore;

verus! {

/// Most entities the game holds before `add_entity` refuses more.
pub const MAX_ENTITIES: usize = 2000;
/// Health the player starts with.
pub const PLAYER_MAX_HEALTH: i32 = 100;
/// Environment entities of the starting scene on a mobile device.
pub const MOBILE_OBJECT_COUNT: u32 = 12;
/// Environment entities of the starting scene elsewhere.
pub const DESKTOP_OBJECT_COUNT: u32 = 18;
/// Texture of an environment entity for which none is given.
pub const DEFAULT_TEXTURE: u32 = 1;
/// Sub-steps into which the integrator divides a frame's step.
pub const SUBSTEPS: u64 = 4;
/// Frames between two debug reports while debug mode is on.
pub const DEBUG_REPORT_INTERVAL: u32 = 60;

/// The whole game: the entities, the systems, and the state of play.
#[derive(Debug)]
pub struct WebGameState {
    pub store: EntityStore,
    pub particle_system: WebParticleSystem,
    pub collision_system: WebCollisionSystem,
    pub input_system: WebInputSystem,
    pub performance: WebPerformanceMonitor,
    pub ai_system: AIBehaviorModule,
    pub score: i32,
    pub level: i32,
    pub paused: bool,
    pub debug_mode: bool,
}

/// What the host is to do with a frame that is not paused.
#[derive(Clone, Copy, Debug, PartialEq, Eq, Structural)]
pub struct FramePlan {
    /// Step by which the simulation advances, capped, in microseconds.
    pub delta_us: u64,
    /// Step of one of the integrator's sub-steps.
    pub sub_delta_us: u64,
    /// Movement asked of the player, each axis -1, 0 or 1.
    pub movement_x: i8,
    pub movement_y: i8,
    pub touch_active: bool,
    /// Whether the quality level leaves room for collision handling.
    pub run_collisions: bool,
    /// Whether the quality level leaves room for the particles' tick.
    pub run_particles: bool,
    /// Whether a debug report is due.
    pub report_debug: bool,
}

/// What a key did besides being recorded.
#[derive(Clone, Copy, Debug, PartialEq, Eq, Structural)]
pub enum KeyOutcome {
    Recorded,
    PauseToggled,
    DebugToggled,
    GameReset,
}

/// What the second half of a frame did.
#[derive(Debug)]
pub struct FrameReport {
    /// The confirmed collisions that involve a player; each scored.
    pub events: Vec<(usize, usize)>,
    /// The particles added for each of `events`.
    pub hit_bursts: Vec<Burst>,
    /// Identifiers of the entities removed at cleanup.
    pub removed: Vec<u32>,
    /// The particles added for each of `removed`.
    pub death_bursts: Vec<Burst>,
}

/// Physics of the player: moved by the integrator, without gravity.
pub open spec fn player_physics() -> WebPhysics {
    WebPhysics { is_kinematic: false, use_gravity: false, freeze_x: false, freeze_y: false }
}

/// Physics of every other entity: moved by the integrator, with gravity.
pub open spec fn object_physics() -> WebPhysics {
    WebPhysics { is_kinematic: false, use_gravity: true, freeze_x: false, freeze_y: false }
}

/// The player of the starting scene.
pub open spec fn is_player_entity(e: WebEntity) -> bool {
    &&& e.id == 1
    &&& e.name@ == "Player"@
    &&& e.entity_type == EntityType::Player
    &&& e.texture_id == 0
    &&& e.active
    &&& e.physics == Some(player_physics())
    &&& e.health == Some(
        WebHealth {
            current: PLAYER_MAX_HEALTH,
            max: PLAYER_MAX_HEALTH,
            regeneration: 0,
            pending: 0,
        },
    )
}

/// Environment entity number `i` of the starting scene.
pub open spec fn is_object_entity(e: WebEntity, i: int, texture: u32) -> bool {
    &&& e.id == i + 2
    &&& e.name@ == object_label(i as u32)
    &&& e.entity_type == EntityType::Environment
    &&& e.texture_id == texture
    &&& e.active
    &&& e.physics == Some(object_physics())
    &&& e.health is None
}

/// Number of environment entities in the starting scene.
pub open spec fn object_count(is_mobile: bool) -> u32 {
    if is_mobile { MOBILE_OBJECT_COUNT } else { DESKTOP_OBJECT_COUNT }
}

/// Texture of environment entity number `i`: the one given for it, or the default.
pub open spec fn texture_at(textures: Seq<u32>, i: int) -> u32 {
    if i < textures.len() { textures[i] } else { DEFAULT_TEXTURE }
}

/// The starting scene: the player first, then the environment entities in
/// order, numbered from zero, with the textures given for them.
pub open spec fn is_starting_scene(store: EntityStore, is_mobile: bool, textures: Seq<u32>) -> bool {
    &&& store.entities.len() == 1 + object_count(is_mobile)
    &&& store.next_entity_id == object_count(is_mobile) + 2
    &&& is_player_entity(store.entities[0])
    &&& forall|i: int|
        0 <= i < object_count(is_mobile) ==> is_object_entity(
            #[trigger] store.entities[1 + i],
            i,
            texture_at(textures, i),
        )
}

/// The plan of a frame, from the governor's state after the frame was
/// recorded, the step it returned, and the input.
pub open spec fn frame_plan(
    monitor: MonitorState,
    delta_us: u64,
    keys: Map<u32, bool>,
    touch_active: bool,
    debug_mode: bool,
) -> FramePlan {
    FramePlan {
        delta_us,
        sub_delta_us: delta_us / SUBSTEPS,
        movement_x: movement(keys).0 as i8,
        movement_y: movement(keys).1 as i8,
        touch_active,
        run_collisions: monitor.quality_level >= 1,
        run_particles: monitor.quality_level >= 2,
        report_debug: debug_mode && monitor.fps_counter % DEBUG_REPORT_INTERVAL == 0,
    }
}

/// A score raised by `PLAYER_HIT_SCORE` for each of `hits` collisions, held
/// at the largest value a score can take.
pub open spec fn score_after(score: i32, hits: nat) -> i32 {
    if score + hits * PLAYER_HIT_SCORE > i32::MAX {
        i32::MAX
    } else {
        (score + hits * PLAYER_HIT_SCORE) as i32
    }
}

/// `after` is `before` started over: the starting scene, no particles, no
/// agents, no score, not paused, and the governor's counters back at zero, while the
/// quality level, the grid and debug mode stay.
pub open spec fn is_reset_of(after: WebGameState, before: WebGameState, textures: Seq<u32>) -> bool {
    &&& is_starting_scene(after.store, before.performance.browser_info.is_mobile, textures)
    &&& after.particle_system@ == (PoolState {
        particles: Seq::<WebParticle>::empty(),
        ..before.particle_system@
    })
    &&& after.score == 0
    &&& after.level == 1
    &&& !after.paused
    &&& after.debug_mode == before.debug_mode
    &&& after.collision_system == before.collision_system
    &&& after.ai_system@ == Seq::<AgentState>::empty()
    &&& after.performance@ == (MonitorState {
        fps_counter: 0,
        fps_timer: 0,
        quality_cooldown: 0,
        ..before.performance@
    })
}

impl WebGameState {
    /// The store, the pool and the governor are well-formed.
    pub open spec fn wf(&self) -> bool {
        &&& self.store.wf()
        &&& self.particle_system.wf()
        &&& self.performance.wf()
    }

    /// Checks at run time what `wf` states.
    pub fn is_valid(&self) -> (valid: bool)
        ensures
            valid == self.wf(),
    {
        self.store.is_valid() && self.particle_system.is_valid() && self.performance.is_valid()
    }

    /// Fills an empty store with the starting scene.
    fn initialize_entities(store: &mut EntityStore, is_mobile: bool, textures: &Vec<u32>)
        requires
            old(store).wf(),
            old(store).entities.len() == 0,
            old(store).next_entity_id == 1,
        ensures
            final(store).wf(),
            is_starting_scene(*final(store), is_mobile, textures@),
    {
        let player_health = WebHealth::new(PLAYER_MAX_HEALTH);
        store.spawn(
            String::from_str("Player"),
            EntityType::Player,
            0,
            Some(WebPhysics { is_kinematic: false, use_gravity: false, freeze_x: false, freeze_y: false }),
            Some(player_health),
        );
        let count: u32 = if is_mobile { MOBILE_OBJECT_COUNT } else { DESKTOP_OBJECT_COUNT };
        let mut i: u32 = 0;
        while i < count
            invariant
                i <= count,
                count == object_count(is_mobile),
                store.wf(),
                store.entities.len() == 1 + i,
                store.next_entity_id == i + 2,
                is_player_entity(store.entities[0]),
                forall|k: int|
                    0 <= k < i ==> is_object_entity(
                        #[trigger] store.entities[1 + k],
                        k,
                        texture_at(textures@, k),
                    ),
            decreases count - i,
        {
            let texture: u32 = if (i as usize) < textures.len() {
                textures[i as usize]
            } else {
                DEFAULT_TEXTURE
            };
            let ghost before = store.entities@;
            store.spawn(
                object_name(i),
                EntityType::Environment,
                texture,
                Some(WebPhysics { is_kinematic: false, use_gravity: true, freeze_x: false, freeze_y: false }),
                None,
            );
            proof {
                assert(store.entities[0] == before[0]);
                assert forall|k: int| 0 <= k < i + 1 implies is_object_entity(
                    #[trigger] store.entities[1 + k],
                    k,
                    texture_at(textures@, k),
                ) by {
                    if k < i {
                        assert(store.entities[1 + k] == before[1 + k]);
                    }
                }
            }
            i = i + 1;
        }
    }

    /// A running game at clock reading `current_time` on the given device,
    /// holding the starting scene.
    pub fn new(current_time: u64, browser_info: BrowserInfo, textures: &Vec<u32>) -> (state: Self)
        ensures
            state.wf(),
            is_starting_scene(state.store, browser_info.is_mobile, textures@),
            state.particle_system@ == (PoolState {
                particles: Seq::<WebParticle>::empty(),
                max_particles: MAX_PARTICLES,
                cleanup_timer: 0,
                next_id: 0,
            }),
            state.performance@ == (MonitorState {
                last_frame_time: current_time,
                frame_times: Seq::<u64>::empty(),
                fps_counter: 0,
                fps_timer: 0,
                current_fps: TARGET_FPS,
                average_frame_time_us: MAX_FRAME_TIME_US,
                quality_level: browser_info.initial_quality(),
                adaptive_quality: true,
                quality_cooldown: 0,
                browser_info,
            }),
            state.collision_system.buckets@.len() == 0,
            state.collision_system.index@ == Map::<u64, usize>::empty(),
            state.input_system.keys@ == Map::<u32, bool>::empty(),
            !state.input_system.touch_active,
            state.ai_system@ == Seq::<AgentState>::empty(),
            state.score == 0,
            state.level == 1,
            !state.paused,
            !state.debug_mode,
    {
        let mut store = EntityStore::new();
        Self::initialize_entities(&mut store, browser_info.is_mobile, textures);
        WebGameState {
            store,
            particle_system: WebParticleSystem::new(MAX_PARTICLES),
            collision_system: WebCollisionSystem::new(),
            input_system: WebInputSystem::new(),
            performance: WebPerformanceMonitor::new(current_time, browser_info),
            ai_system: AIBehaviorModule::new(),
            score: 0,
            level: 1,
            paused: false,
            debug_mode: false,
        }
    }

    /// The first half of a frame. A paused game ignores it altogether.
    /// Otherwise the governor records the frame, and the plan says by how
    /// much the host is to advance positions and which systems the quality
    /// level leaves room for.
    pub fn update(&mut self, current_time: u64) -> (plan: Option<FramePlan>)
        requires
            old(self).wf(),
        ensures
            final(self).wf(),
            old(self).paused ==> plan is None && *final(self) == *old(self),
            !old(self).paused ==> {
                &&& final(self).performance@ == step(old(self).performance@, current_time)
                &&& plan == Some(
                    frame_plan(
                        final(self).performance@,
                        capped_delta(old(self).performance.last_frame_time, current_time),
                        old(self).input_system.keys@,
                        old(self).input_system.touch_active,
                        old(self).debug_mode,
                    ),
                )
                &&& *final(self) == (WebGameState {
                    performance: final(self).performance,
                    ..*old(self)
                })
            },
    {
        if self.paused {
            return None;
        }
        let delta_us: u64 = self.performance.update(current_time);
        let axes: (i8, i8) = self.input_system.get_movement_input();
        let quality: u8 = self.performance.quality_level;
        Some(
            FramePlan {
                delta_us,
                sub_delta_us: delta_us / SUBSTEPS,
                movement_x: axes.0,
                movement_y: axes.1,
                touch_active: self.input_system.touch_active,
                run_collisions: quality >= 1,
                run_particles: quality >= 2,
                report_debug: self.debug_mode && self.performance.fps_counter
                    % DEBUG_REPORT_INTERVAL == 0,
            },
        )
    }

    /// The broad phase: every two active entities that share a cell, each
    /// pair once, by position in the store. `cells` gives the cell of each
    /// entity in the order of the store.
    pub fn detect_collisions(&mut self, cells: &Vec<Cell>) -> (pairs: Vec<(usize, usize)>)
        ensures
            forall|k: int|
                0 <= k < pairs@.len() ==> is_candidate(
                    occupancy(old(self).store.entities@, cells@),
                    (#[trigger] pairs@[k]).0 as int,
                    pairs@[k].1 as int,
                ),
            forall|a: int, b: int| #[trigger]
                is_candidate(occupancy(old(self).store.entities@, cells@), a, b)
                    ==> pairs@.contains((a as usize, b as usize)),
            pairs@.no_duplicates(),
            grid_ok(
                final(self).collision_system.index@,
                final(self).collision_system.buckets@,
                occupancy(old(self).store.entities@, cells@),
                old(self).store.entities.len() as int,
            ),
            *final(self) == (WebGameState {
                collision_system: final(self).collision_system,
                ..*old(self)
            }),
    {
        self.collision_system.update(&self.store.entities, cells)
    }

    /// The second half of a frame, in this order. Where the plan ran
    /// collisions, each of `hits` that involves a player scores and sets off
    /// a burst with the lifetimes `hit_burst`. Every entity's own update runs
    /// for the plan's step. Where the plan runs particles, the pool ticks.
    /// The entities that are no longer alive are removed, their agents with
    /// them, and each of them sets off one burst with the lifetimes `death_burst`.
    pub fn finish_update(
        &mut self,
        plan: FramePlan,
        hits: &Vec<(usize, usize)>,
        hit_burst: &Vec<u64>,
        death_burst: &Vec<u64>,
    ) -> (report: FrameReport)
        requires
            old(self).wf(),
        ensures
            final(self).wf(),
            report.events@ == (if plan.run_collisions {
                player_hits(old(self).store.entities@, hits@)
            } else {
                Seq::<(usize, usize)>::empty()
            }),
            final(self).score == score_after(old(self).score, report.events@.len()),
            final(self).store.entities@ == survivors(
                all_updated(old(self).store.entities@, plan.delta_us),
            ),
            final(self).store.next_entity_id == old(self).store.next_entity_id,
            report.removed@ == casualties(all_updated(old(self).store.entities@, plan.delta_us)),
            forall|i: int|
                0 <= i < final(self).store.entities.len() ==> (#[trigger] final(self).store.entities[i]).alive(),
            final(self).ai_system@ == agents_of_living(
                old(self).ai_system@,
                final(self).store.entities@,
            ),
            ({
                let after_hits = bursts(
                    old(self).particle_system@,
                    hit_burst@,
                    report.events@.len(),
                );
                let after_tick = if plan.run_particles {
                    ticked(after_hits, plan.delta_us)
                } else {
                    after_hits
                };
                &&& final(self).particle_system@ == bursts(
                    after_tick,
                    death_burst@,
                    report.removed@.len(),
                )
                &&& report.hit_bursts@.len() == report.events@.len()
                &&& forall|k: int|
                    0 <= k < report.events@.len() ==> #[trigger] report.hit_bursts@[k]
                        == burst_at(old(self).particle_system@, hit_burst@, k as nat)
                &&& report.death_bursts@.len() == report.removed@.len()
                &&& forall|k: int|
                    0 <= k < report.removed@.len() ==> #[trigger] report.death_bursts@[k]
                        == burst_at(after_tick, death_burst@, k as nat)
            }),
            *final(self) == (WebGameState {
                store: final(self).store,
                particle_system: final(self).particle_system,
                ai_system: final(self).ai_system,
                score: final(self).score,
                ..*old(self)
            }),
    {
        let events: Vec<(usize, usize)> = if plan.run_collisions {
            WebCollisionSystem::player_collisions(&self.store.entities, hits)
        } else {
            Vec::new()
        };
        let gained: i128 = events.len() as i128 * PLAYER_HIT_SCORE as i128;
        let total: i128 = self.score as i128 + gained;
        self.score = if total > i32::MAX as i128 { i32::MAX } else { total as i32 };
        let hit_bursts: Vec<Burst> = self.particle_system.create_explosions(
            hit_burst,
            events.len(),
        );
        self.store.update(plan.delta_us);
        if plan.run_particles {
            self.particle_system.update(plan.delta_us);
        }
        let removed: Vec<u32> = self.store.remove_inactive();
        self.ai_system.retain_living(&self.store);
        let death_bursts: Vec<Burst> = self.particle_system.create_explosions(
            death_burst,
            removed.len(),
        );
        FrameReport { events, hit_bursts, removed, death_bursts }
    }

    /// Records a key and acts on the keys that steer the game itself: space
    /// toggles the pause, the tilde key toggles debug mode, R starts the game
    /// over with the starting scene.
    pub fn handle_key_event(&mut self, key_code: u32, pressed: bool, textures: &Vec<u32>) -> (outcome:
        KeyOutcome)
        requires
            old(self).wf(),
        ensures
            final(self).wf(),
            final(self).input_system.keys@ == old(self).input_system.keys@.insert(
                key_code,
                pressed,
            ),
            final(self).input_system.touch_active == old(self).input_system.touch_active,
            outcome == (if pressed && key_code == KEY_SPACE {
                KeyOutcome::PauseToggled
            } else if pressed && key_code == KEY_TILDE {
                KeyOutcome::DebugToggled
            } else if pressed && key_code == KEY_R {
                KeyOutcome::GameReset
            } else {
                KeyOutcome::Recorded
            }),
            final(self).debug_mode == (if outcome == KeyOutcome::DebugToggled {
                !old(self).debug_mode
            } else {
                old(self).debug_mode
            }),
            final(self).paused == (if outcome == KeyOutcome::PauseToggled {
                !old(self).paused
            } else if outcome == KeyOutcome::GameReset {
                false
            } else {
                old(self).paused
            }),
            outcome == KeyOutcome::GameReset ==> is_reset_of(*final(self), *old(self), textures@),
            outcome != KeyOutcome::GameReset ==> *final(self) == (WebGameState {
                input_system: final(self).input_system,
                paused: final(self).paused,
                debug_mode: final(self).debug_mode,
                ..*old(self)
            }),
    {
        self.input_system.set_key(key_code, pressed);
        if pressed && key_code == KEY_SPACE {
            self.paused = !self.paused;
            KeyOutcome::PauseToggled
        } else if pressed && key_code == KEY_TILDE {
            self.debug_mode = !self.debug_mode;
            KeyOutcome::DebugToggled
        } else if pressed && key_code == KEY_R {
            self.reset_game(textures);
            KeyOutcome::GameReset
        } else {
            KeyOutcome::Recorded
        }
    }

    /// Starts the game over: the starting scene, no particles, no score, not
    /// paused, and the governor's counters back at zero. The quality level,
    /// the input and debug mode stay. A new session begins with it: the
    /// identifiers start over, and the player is entity 1 again.
    pub fn reset_game(&mut self, textures: &Vec<u32>)
        requires
            old(self).wf(),
        ensures
            final(self).wf(),
            is_reset_of(*final(self), *old(self), textures@),
            final(self).input_system == old(self).input_system,
    {
        self.store = EntityStore::new();
        self.particle_system.clear();
        self.ai_system = AIBehaviorModule::new();
        self.score = 0;
        self.level = 1;
        self.paused = false;
        self.performance.fps_counter = 0;
        self.performance.fps_timer = 0;
        self.performance.quality_cooldown = 0;
        Self::initialize_entities(
            &mut self.store,
            self.performance.browser_info.is_mobile,
            textures,
        );
    }

    /// The factory: adds a bare entity, part of the environment until told
    /// otherwise, and returns its identifier, which is greater than any given
    /// before. It fails only once the identifiers have run out.
    pub fn create_entity(&mut self, name: String) -> (id: Option<u32>)
        requires
            old(self).wf(),
        ensures
            final(self).wf(),
            id is Some <==> old(self).store.next_entity_id < u32::MAX,
            id matches Some(new_id) ==> {
                &&& new_id == old(self).store.next_entity_id
                &&& !has_id(old(self).store.entities@, new_id)
                &&& forall|i: int|
                    0 <= i < old(self).store.entities.len() ==> (#[trigger] old(self).store.entities[i]).id
                        < new_id
                &&& final(self).store.next_entity_id == new_id + 1
                &&& final(self).store.entities@ == old(self).store.entities@.push(
                    WebEntity {
                        id: new_id,
                        name,
                        entity_type: EntityType::Environment,
                        texture_id: 0,
                        active: true,
                        physics: None,
                        health: None,
                    },
                )
            },
            id is None ==> final(self).store == old(self).store,
            *final(self) == (WebGameState { store: final(self).store, ..*old(self) }),
    {
        self.store.create_entity(name, EntityType::Environment, 0)
    }

    /// Records a touch event given as a flat run of coordinates, two to a touch.
    pub fn handle_touch_event(&mut self, coordinates: usize)
        ensures
            final(self).input_system.touch_active == (coordinates / 2 > 0),
            final(self).input_system.keys@ == old(self).input_system.keys@,
            *final(self) == (WebGameState {
                input_system: final(self).input_system,
                ..*old(self)
            }),
    {
        self.input_system.set_touch(coordinates / 2);
    }

    /// Adds an entity of the named kind with the physics capability and
    /// returns its identifier, or nothing where the game already holds
    /// `MAX_ENTITIES` entities or the identifiers have run out.
    pub fn add_entity(&mut self, name: String, kind: &str, texture_id: u32) -> (id: Option<u32>)
        requires
            old(self).wf(),
        ensures
            final(self).wf(),
            id is Some <==> old(self).store.entities.len() < MAX_ENTITIES
                && old(self).store.next_entity_id < u32::MAX,
            id matches Some(new_id) ==> {
                &&& new_id == old(self).store.next_entity_id
                &&& !has_id(old(self).store.entities@, new_id)
                &&& final(self).store.next_entity_id == new_id + 1
                &&& final(self).store.entities@ == old(self).store.entities@.push(
                    WebEntity {
                        id: new_id,
                        name,
                        entity_type: kind_named(kind@),
                        texture_id,
                        active: true,
                        physics: Some(object_physics()),
                        health: None,
                    },
                )
            },
            id is None ==> final(self).store == old(self).store,
            *final(self) == (WebGameState { store: final(self).store, ..*old(self) }),
    {
        if self.store.len() >= MAX_ENTITIES {
            return None;
        }
        let entity_type = EntityType::from_name(kind);
        self.store.spawn(
            name,
            entity_type,
            texture_id,
            Some(WebPhysics { is_kinematic: false, use_gravity: true, freeze_x: false, freeze_y: false }),
            None,
        )
    }

    /// Sets off one burst with the given lifetimes and returns how many
    /// particles it added.
    pub fn create_explosion(&mut self, lifetimes: &Vec<u64>) -> (spawned: usize)
        requires
            old(self).wf(),
        ensures
            final(self).wf(),
            final(self).particle_system@ == burst(old(self).particle_system@, lifetimes@),
            spawned == final(self).particle_system.particles.len()
                - old(self).particle_system.particles.len(),
            *final(self) == (WebGameState {
                particle_system: final(self).particle_system,
                ..*old(self)
            }),
    {
        self.particle_system.create_explosion(lifetimes)
    }

    /// Takes note of what the host found out about the device. On a mobile
    /// device, or one without hardware acceleration, the quality level goes
    /// to medium.
    pub fn set_browser_capabilities(
        &mut self,
        supports_webgl2: bool,
        hardware_acceleration: bool,
        is_mobile: bool,
        cpu_cores: u32,
    )
        requires
            old(self).wf(),
        ensures
            final(self).wf(),
            final(self).performance@ == (MonitorState {
                quality_level: if is_mobile || !hardware_acceleration {
                    1
                } else {
                    old(self).performance.quality_level
                },
                browser_info: BrowserInfo {
                    supports_webgl2,
                    hardware_acceleration,
                    is_mobile,
                    cpu_cores,
                    ..old(self).performance.browser_info
                },
                ..old(self).performance@
            }),
            *final(self) == (WebGameState { performance: final(self).performance, ..*old(self) }),
    {
        self.performance.browser_info.supports_webgl2 = supports_webgl2;
        self.performance.browser_info.hardware_acceleration = hardware_acceleration;
        self.performance.browser_info.is_mobile = is_mobile;
        self.performance.browser_info.cpu_cores = cpu_cores;
        if is_mobile || !hardware_acceleration {
            self.performance.quality_level = 1;
        }
    }

    /// Fixes the quality level by hand and turns the adaptive rule off.
    pub fn set_quality_level(&mut self, quality: u8)
        requires
            old(self).wf(),
        ensures
            final(self).wf(),
            final(self).performance@ == (MonitorState {
                quality_level: if quality > MAX_QUALITY { MAX_QUALITY } else { quality },
                adaptive_quality: false,
                ..old(self).performance@
            }),
            *final(self) == (WebGameState { performance: final(self).performance, ..*old(self) }),
    {
        self.performance.set_quality_level(quality);
    }

    /// Turns the adaptive rule on or off.
    pub fn enable_adaptive_quality(&mut self, enabled: bool)
        ensures
            final(self).performance@ == (MonitorState {
                adaptive_quality: enabled,
                ..old(self).performance@
            }),
            *final(self) == (WebGameState { performance: final(self).performance, ..*old(self) }),
    {
        self.performance.enable_adaptive_quality(enabled);
    }

    /// Points scored so far.
    pub fn get_score(&self) -> (score: i32)
        ensures
            score == self.score,
    {
        self.score
    }

    /// Number of entities stored, active or not.
    pub fn get_entity_count(&self) -> (count: usize)
        ensures
            count == self.store.entities.len(),
    {
        self.store.len()
    }

    /// Number of particles that are still active.
    pub fn get_particle_count(&self) -> (count: usize)
        ensures
            count == crate::particles::active_count(self.particle_system.particles@),
    {
        self.particle_system.active_particle_count()
    }

    /// Frames per second, as last derived.
    pub fn get_fps(&self) -> (fps: u32)
        ensures
            fps == self.performance.current_fps,
    {
        self.performance.current_fps
    }

    /// Average frame time over the window, in microseconds.
    pub fn get_frame_time(&self) -> (average: u64)
        ensures
            average == self.performance.average_frame_time_us,
    {
        self.performance.average_frame_time_us
    }

    /// The quality level in force.
    pub fn get_quality_level(&self) -> (quality: u8)
        ensures
            quality == self.performance.quality_level,
    {
        self.performance.quality_level
    }

    /// Whether the game is paused.
    pub fn is_paused(&self) -> (paused: bool)
        ensures
            paused == self.paused,
    {
        self.paused
    }

    /// Pauses a running game and resumes a paused one.
    pub fn toggle_pause(&mut self)
        ensures
            final(self).paused == !old(self).paused,
            *final(self) == (WebGameState { paused: final(self).paused, ..*old(self) }),
    {
        self.paused = !self.paused;
    }

    /// Drops every entity, every agent and every particle. The identifiers
    /// go on from where they were.
    pub fn cleanup(&mut self)
        requires
            old(self).wf(),
        ensures
            final(self).wf(),
            final(self).store.entities@ == Seq::<WebEntity>::empty(),
            final(self).store.next_entity_id == old(self).store.next_entity_id,
            final(self).particle_system@ == (PoolState {
                particles: Seq::<WebParticle>::empty(),
                ..old(self).particle_system@
            }),
            final(self).ai_system@ == Seq::<AgentState>::empty(),
            *final(self) == (WebGameState {
                store: final(self).store,
                particle_system: final(self).particle_system,
                ai_system: final(self).ai_system,
                ..*old(self)
            }),
    {
        self.store.clear();
        self.particle_system.clear();
        self.ai_system = AIBehaviorModule::new();
    }
}

} // verus!
