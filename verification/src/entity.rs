//! Entities and the capabilities that decide how the systems treat them.

use vstd::prelude::*;

verus! {

/// Microseconds in a second, in the width the regeneration arithmetic runs in.
pub const MICROS_PER_SECOND_WIDE: i128 = 1_000_000;

/// What an entity is in the game.
#[derive(Clone, Copy, Debug, PartialEq, Eq, Structural)]
pub enum EntityType {
    Player,
    Environment,
    Pickup,
    Projectile,
}

/// The switches of the physics capability.
#[derive(Clone, Copy, Debug, PartialEq, Eq, Structural)]
pub struct WebPhysics {
    pub is_kinematic: bool,
    pub use_gravity: bool,
    /// The integrator leaves the position on this axis alone.
    pub freeze_x: bool,
    pub freeze_y: bool,
}

/// The health capability. `regeneration` is in points per second and may be negative.
#[derive(Clone, Copy, Debug, PartialEq, Eq, Structural)]
pub struct WebHealth {
    pub current: i32,
    pub max: i32,
    pub regeneration: i32,
    /// What regeneration has earned and not yet paid out, in millionths of a
    /// point: always less than a whole point.
    pub pending: u32,
}

/// An entity: its identity, whether it takes part, and its capabilities.
/// Where it stands and how it moves is the host's to keep, by identifier.
#[derive(Debug)]
pub struct WebEntity {
    pub id: u32,
    pub name: String,
    pub entity_type: EntityType,
    pub texture_id: u32,
    pub active: bool,
    pub physics: Option<WebPhysics>,
    pub health: Option<WebHealth>,
}

/// `value` held to the range from zero to `max`.
pub open spec fn clamp_health(value: int, max: int) -> int {
    if value > max {
        if max < 0 { 0 } else { max }
    } else if value < 0 {
        0
    } else {
        value
    }
}

/// Millionths of a point that are due after `delta_us` microseconds at
/// `rate` points per second, with `pending` of them left from before.
pub open spec fn earned(rate: int, pending: int, delta_us: int) -> int {
    pending + (if rate >= 0 { rate } else { -rate }) * delta_us
}

/// Whole points paid out of what is due, with the sign of the rate.
pub open spec fn regenerated(rate: int, pending: int, delta_us: int) -> int {
    if rate >= 0 {
        earned(rate, pending, delta_us) / 1_000_000
    } else {
        -(earned(rate, pending, delta_us) / 1_000_000)
    }
}

/// What stays pending once the whole points have been paid out.
pub open spec fn pending_after(rate: int, pending: int, delta_us: int) -> int {
    earned(rate, pending, delta_us) % 1_000_000
}

/// A health block after `delta_us` microseconds of regeneration: the whole
/// points that are due change the current value, held between zero and the
/// maximum, and the rest stays pending.
pub open spec fn health_regenerated(h: WebHealth, delta_us: u64) -> WebHealth {
    WebHealth {
        current: clamp_health(
            h.current + regenerated(h.regeneration as int, h.pending as int, delta_us as int),
            h.max as int,
        ) as i32,
        pending: pending_after(h.regeneration as int, h.pending as int, delta_us as int) as u32,
        ..h
    }
}

/// Regeneration keeps time: two steps in a row pay out, and leave pending,
/// what one step of their joint length does. No fraction of a point is lost
/// to short steps.
pub proof fn lemma_regeneration_adds_up(rate: int, pending: int, first: int, second: int)
    requires
        0 <= pending < 1_000_000,
        0 <= first,
        0 <= second,
    ensures
        regenerated(rate, pending, first) + regenerated(
            rate,
            pending_after(rate, pending, first),
            second,
        ) == regenerated(rate, pending, first + second),
        pending_after(rate, pending_after(rate, pending, first), second) == pending_after(
            rate,
            pending,
            first + second,
        ),
        0 <= pending_after(rate, pending, first) < 1_000_000,
{
    let speed = if rate >= 0 { rate } else { -rate };
    let a = speed * first;
    let b = speed * second;
    assert(speed * (first + second) == a + b) by (nonlinear_arith)
        requires
            a == speed * first,
            b == speed * second,
    ;
    assert(0 <= a && 0 <= b) by (nonlinear_arith)
        requires
            a == speed * first,
            b == speed * second,
            0 <= speed,
            0 <= first,
            0 <= second,
    ;
    let x = pending + a;
    assert(x == 1_000_000 * (x / 1_000_000) + x % 1_000_000);
    assert((x % 1_000_000 + b) / 1_000_000 + x / 1_000_000 == (x + b) / 1_000_000);
    assert((x % 1_000_000 + b) % 1_000_000 == (x + b) % 1_000_000);
}

/// A health block after its current value has changed by `change`.
pub open spec fn health_after(h: WebHealth, change: int) -> WebHealth {
    WebHealth { current: clamp_health(h.current + change, h.max as int) as i32, ..h }
}

impl Default for WebPhysics {
    /// Moved by the integrator along both axes, under gravity.
    fn default() -> (physics: Self)
        ensures
            physics == (WebPhysics {
                is_kinematic: false,
                use_gravity: true,
                freeze_x: false,
                freeze_y: false,
            }),
    {
        WebPhysics { is_kinematic: false, use_gravity: true, freeze_x: false, freeze_y: false }
    }
}

impl Default for WebHealth {
    /// Full health of a hundred points, without regeneration.
    fn default() -> (health: Self)
        ensures
            health == (WebHealth { current: 100, max: 100, regeneration: 0, pending: 0 }),
            health.wf(),
    {
        WebHealth { current: 100, max: 100, regeneration: 0, pending: 0 }
    }
}

impl WebHealth {
    /// The current value lies between zero and the maximum, and less than a
    /// whole point is pending.
    pub open spec fn wf(self) -> bool {
        0 <= self.current <= self.max && self.pending < 1_000_000
    }

    /// Checks at run time what `wf` states.
    pub fn is_valid(&self) -> (valid: bool)
        ensures
            valid == self.wf(),
    {
        0 <= self.current && self.current <= self.max && self.pending < 1_000_000
    }

    /// Full health of `max_health` points, or of none where that is negative.
    pub fn new(max_health: i32) -> (h: Self)
        ensures
            h.wf(),
            h.max == (if max_health < 0 { 0 } else { max_health }),
            h.current == h.max,
            h.regeneration == 0,
            h.pending == 0,
    {
        let max: i32 = if max_health < 0 { 0 } else { max_health };
        WebHealth { current: max, max, regeneration: 0, pending: 0 }
    }

    /// Changes the current value by `change` and holds it between zero and the maximum.
    pub fn adjust(&mut self, change: i128)
        requires
            old(self).wf(),
        ensures
            final(self).wf(),
            *final(self) == health_after(*old(self), change as int),
    {
        let sum: i128 = if change > i64::MAX as i128 {
            self.max as i128
        } else if change < i64::MIN as i128 {
            0
        } else {
            self.current as i128 + change
        };
        if sum > self.max as i128 {
            self.current = self.max;
        } else if sum < 0 {
            self.current = 0;
        } else {
            self.current = sum as i32;
        }
    }
}

impl WebHealth {
    /// Lets the health regenerate for `delta_us` microseconds.
    pub fn regenerate(&mut self, delta_us: u64)
        requires
            old(self).wf(),
        ensures
            final(self).wf(),
            *final(self) == health_regenerated(*old(self), delta_us),
    {
        let rate: i128 = self.regeneration as i128;
        let span: i128 = delta_us as i128;
        let speed: i128 = if rate >= 0 { rate } else { -rate };
        assert(0 <= speed * span <= 0x8000_0000 * 0xffff_ffff_ffff_ffff) by (nonlinear_arith)
            requires
                0 <= speed <= 0x8000_0000,
                0 <= span <= 0xffff_ffff_ffff_ffff,
        ;
        let due: i128 = self.pending as i128 + speed * span;
        let points: i128 = due / MICROS_PER_SECOND_WIDE;
        let rest: i128 = due % MICROS_PER_SECOND_WIDE;
        let change: i128 = if rate >= 0 { points } else { -points };
        self.adjust(change);
        self.pending = rest as u32;
    }
}

impl WebEntity {
    /// The health, where there is any, is well-formed.
    pub open spec fn wf(&self) -> bool {
        self.health matches Some(h) ==> h.wf()
    }

    /// Checks at run time what `wf` states.
    pub fn is_valid(&self) -> (valid: bool)
        ensures
            valid == self.wf(),
    {
        match self.health {
            Some(h) => h.is_valid(),
            None => true,
        }
    }

    /// Alive: active, and with health left where it has a health capability.
    pub open spec fn alive(&self) -> bool {
        self.active && (self.health matches Some(h) ==> h.current > 0)
    }

    /// The entity after its health has changed by `change`: the health stays
    /// between zero and its maximum, and an entity left with none is
    /// inactive. So is one that had none left before: healing revives nothing.
    pub open spec fn with_health_change(self, change: int) -> WebEntity {
        match self.health {
            Some(h) => {
                let after = health_after(h, change);
                WebEntity {
                    health: Some(after),
                    active: self.active && h.current > 0 && after.current > 0,
                    ..self
                }
            },
            None => self,
        }
    }

    /// The entity after the health pass of a tick of `delta_us` microseconds.
    /// An inactive entity stays as it is. An active one with no health left
    /// is marked inactive, whatever its regeneration. Otherwise the health
    /// regenerates at its rate, and an entity left without health goes inactive.
    pub open spec fn updated(self, delta_us: u64) -> WebEntity {
        match self.health {
            Some(h) => {
                if !self.active {
                    self
                } else if h.current <= 0 {
                    WebEntity { active: false, ..self }
                } else if h.regeneration != 0 {
                    let after = health_regenerated(h, delta_us);
                    WebEntity { health: Some(after), active: after.current > 0, ..self }
                } else {
                    self
                }
            },
            None => self,
        }
    }

    /// A fresh entity: active, with no capability attached.
    pub fn new(id: u32, name: String, entity_type: EntityType, texture_id: u32) -> (e: Self)
        ensures
            e.wf(),
            e == (WebEntity {
                id,
                name,
                entity_type,
                texture_id,
                active: true,
                physics: None,
                health: None,
            }),
    {
        WebEntity { id, name, entity_type, texture_id, active: true, physics: None, health: None }
    }

    /// Attaches the physics capability, replacing an earlier one.
    pub fn add_physics(&mut self, physics: WebPhysics)
        ensures
            *final(self) == (WebEntity { physics: Some(physics), ..*old(self) }),
    {
        self.physics = Some(physics);
    }

    /// Attaches the health capability at full health.
    pub fn add_health(&mut self, max_health: i32)
        ensures
            final(self).wf(),
            final(self).health is Some,
            final(self).health->0.max == (if max_health < 0 { 0 } else { max_health }),
            final(self).health->0.current == final(self).health->0.max,
            final(self).health->0.regeneration == 0,
            final(self).health->0.pending == 0,
            *final(self) == (WebEntity { health: final(self).health, ..*old(self) }),
    {
        self.health = Some(WebHealth::new(max_health));
    }

    /// Whether the entity is alive: what the cleanup pass keeps.
    pub fn is_alive(&self) -> (alive: bool)
        ensures
            alive == self.alive(),
    {
        self.active && match self.health {
            Some(h) => h.current > 0,
            None => true,
        }
    }

    /// Whether the integrator moves this entity: active, with a physics
    /// capability that is not kinematic.
    pub fn is_simulated(&self) -> (simulated: bool)
        ensures
            simulated == (self.active && self.physics is Some && !self.physics->0.is_kinematic),
    {
        self.active && match self.physics {
            Some(p) => !p.is_kinematic,
            None => false,
        }
    }

    /// Whether gravity acts on this entity.
    pub fn feels_gravity(&self) -> (gravity: bool)
        ensures
            gravity == (self.active && self.physics is Some && !self.physics->0.is_kinematic
                && self.physics->0.use_gravity),
    {
        self.active && match self.physics {
            Some(p) => !p.is_kinematic && p.use_gravity,
            None => false,
        }
    }

    /// Whether the integrator moves this entity along the x axis.
    pub fn moves_along_x(&self) -> (moves: bool)
        ensures
            moves == (self.active && self.physics is Some && !self.physics->0.is_kinematic
                && !self.physics->0.freeze_x),
    {
        self.active && match self.physics {
            Some(p) => !p.is_kinematic && !p.freeze_x,
            None => false,
        }
    }

    /// Whether the integrator moves this entity along the y axis.
    pub fn moves_along_y(&self) -> (moves: bool)
        ensures
            moves == (self.active && self.physics is Some && !self.physics->0.is_kinematic
                && !self.physics->0.freeze_y),
    {
        self.active && match self.physics {
            Some(p) => !p.is_kinematic && !p.freeze_y,
            None => false,
        }
    }

    /// Takes `damage` points of health away (a negative amount heals). An
    /// entity left without health, or found without, goes inactive. An entity
    /// without the health capability is unaffected.
    pub fn take_damage(&mut self, damage: i32)
        requires
            old(self).wf(),
        ensures
            final(self).wf(),
            *final(self) == old(self).with_health_change(-(damage as int)),
    {
        self.change_health(-(damage as i128));
    }

    fn change_health(&mut self, change: i128)
        requires
            old(self).wf(),
        ensures
            final(self).wf(),
            *final(self) == old(self).with_health_change(change as int),
    {
        match self.health {
            Some(h) => {
                let mut after = h;
                after.adjust(change);
                self.health = Some(after);
                if h.current <= 0 || after.current <= 0 {
                    self.active = false;
                }
            },
            None => {},
        }
    }

    /// The health pass of a tick of `delta_us` microseconds: an active entity
    /// with no health left is marked inactive; otherwise health regenerates
    /// at its rate, and an entity left without health goes inactive. An
    /// inactive entity does not change.
    pub fn update(&mut self, delta_us: u64)
        requires
            old(self).wf(),
        ensures
            final(self).wf(),
            *final(self) == old(self).updated(delta_us),
            final(self).active ==> final(self).alive(),
    {
        if !self.active {
            return ;
        }
        match self.health {
            Some(h) => {
                if h.current <= 0 {
                    self.active = false;
                } else if h.regeneration != 0 {
                    let mut after = h;
                    after.regenerate(delta_us);
                    self.health = Some(after);
                    if after.current <= 0 {
                        self.active = false;
                    }
                }
            },
            None => {},
        }
    }
}

} // verus!
