//! The particle pool: a bounded store of short-lived particles, filled by
//! bursts and by rate-based emitters, aged every tick and compacted on a
//! fixed cadence.

use vstd::prelude::*;

verus! {

/// Most particles a pool may be asked to hold.
pub const MAX_PARTICLES: usize = 5000;
/// Most particles a single burst adds.
pub const BURST_LIMIT: usize = 50;
/// Number of updates between two compactions of the pool.
pub const CLEANUP_INTERVAL: u32 = 120;
/// A life ratio is counted in thousandths.
pub const FULL_RATIO: u32 = 1000;

/// A particle: the serial number under which the host keeps its looks, its
/// lifetime in microseconds, and whether it still counts.
#[derive(Clone, Copy, Debug, PartialEq, Eq, Structural)]
pub struct WebParticle {
    pub id: u64,
    pub life: u64,
    pub max_life: u64,
    pub active: bool,
}

/// A source that releases one particle every `interval` microseconds until
/// its own lifetime has run out.
#[derive(Clone, Copy, Debug, PartialEq, Eq, Structural)]
pub struct ParticleEmitter {
    pub interval: u64,
    pub timer: u64,
    pub remaining: u64,
    pub particle_life: u64,
    pub active: bool,
}

/// What one burst added: `count` particles, numbered from `first_id` on.
#[derive(Clone, Copy, Debug, PartialEq, Eq, Structural)]
pub struct Burst {
    pub first_id: u64,
    pub count: usize,
}

/// The pool. Inactive particles stay in `particles` until the next compaction.
#[derive(Debug)]
pub struct WebParticleSystem {
    pub particles: Vec<WebParticle>,
    pub max_particles: usize,
    pub cleanup_timer: u32,
    /// Serial number of the next particle.
    pub next_id: u64,
}

/// Mathematical content of a [`WebParticleSystem`].
pub struct PoolState {
    pub particles: Seq<WebParticle>,
    pub max_particles: usize,
    pub cleanup_timer: u32,
    pub next_id: u64,
}

/// The serial number `offset` places after `first`; the numbers start over
/// after the last one.
pub open spec fn serial(first: u64, offset: int) -> u64 {
    ((first + offset) % 0x1_0000_0000_0000_0000) as u64
}

/// A particle at the start of a life of `life` microseconds. One that is
/// given no life at all is inactive from the start.
pub open spec fn fresh(id: u64, life: u64) -> WebParticle {
    WebParticle { id, life, max_life: life, active: life > 0 }
}

/// A particle after `delta_us` microseconds: an active one loses that much
/// life and goes inactive when none is left; an inactive one stays as it is.
pub open spec fn aged(p: WebParticle, delta_us: u64) -> WebParticle {
    if !p.active {
        p
    } else if p.life <= delta_us {
        WebParticle { life: 0, active: false, ..p }
    } else {
        WebParticle { life: (p.life - delta_us) as u64, ..p }
    }
}

/// Remaining life in thousandths of the whole, between 0 and 1000.
pub open spec fn ratio_of(p: WebParticle) -> int {
    if p.max_life > 0 {
        let r = p.life * 1000 / (p.max_life as int);
        if r > 1000 { 1000 } else { r }
    } else {
        0
    }
}

/// Every particle of `s` after `delta_us` microseconds.
pub open spec fn all_aged(s: Seq<WebParticle>, delta_us: u64) -> Seq<WebParticle> {
    Seq::new(s.len(), |i: int| aged(s[i], delta_us))
}

/// The active particles of `s`, in their order.
pub open spec fn active_only(s: Seq<WebParticle>) -> Seq<WebParticle>
    decreases s.len(),
{
    if s.len() == 0 {
        Seq::empty()
    } else if s.last().active {
        active_only(s.drop_last()).push(s.last())
    } else {
        active_only(s.drop_last())
    }
}

/// Number of active particles in `s`.
pub open spec fn active_count(s: Seq<WebParticle>) -> nat
    decreases s.len(),
{
    if s.len() == 0 {
        0
    } else {
        active_count(s.drop_last()) + if s.last().active { 1nat } else { 0nat }
    }
}

/// The first `n` of `lifetimes`, each as a fresh particle, numbered from `first_id`.
pub open spec fn burst_of(lifetimes: Seq<u64>, n: int, first_id: u64) -> Seq<WebParticle> {
    Seq::new(n as nat, |i: int| fresh(serial(first_id, i), lifetimes[i]))
}

/// `n` fresh particles of the same lifetime, numbered from `first_id`.
pub open spec fn stream_of(life: u64, n: int, first_id: u64) -> Seq<WebParticle> {
    Seq::new(n as nat, |i: int| fresh(serial(first_id, i), life))
}

/// Size of a burst: what was asked for, held to the burst limit and to the
/// room left in the pool.
pub open spec fn burst_size(requested: int, held: int, capacity: int) -> int {
    let limited = if requested > BURST_LIMIT { BURST_LIMIT as int } else { requested };
    if limited > capacity - held { capacity - held } else { limited }
}

/// The pool after one burst with the given lifetimes.
pub open spec fn burst(v: PoolState, lifetimes: Seq<u64>) -> PoolState {
    let n = burst_size(lifetimes.len() as int, v.particles.len() as int, v.max_particles as int);
    PoolState {
        particles: v.particles + burst_of(lifetimes, n, v.next_id),
        next_id: serial(v.next_id, n),
        ..v
    }
}

/// The pool after `times` bursts in a row, each with the given lifetimes.
pub open spec fn bursts(v: PoolState, lifetimes: Seq<u64>, times: nat) -> PoolState
    decreases times,
{
    if times == 0 {
        v
    } else {
        burst(bursts(v, lifetimes, (times - 1) as nat), lifetimes)
    }
}

/// What burst number `k` of such a row adds.
pub open spec fn burst_at(v: PoolState, lifetimes: Seq<u64>, k: nat) -> Burst {
    let before = bursts(v, lifetimes, k);
    Burst {
        first_id: before.next_id,
        count: burst_size(
            lifetimes.len() as int,
            before.particles.len() as int,
            before.max_particles as int,
        ) as usize,
    }
}

/// The pool after one tick of `delta_us` microseconds: every particle aged,
/// and on every `CLEANUP_INTERVAL`th tick the inactive ones dropped.
pub open spec fn ticked(v: PoolState, delta_us: u64) -> PoolState {
    let due = v.cleanup_timer + 1 >= CLEANUP_INTERVAL;
    PoolState {
        particles: if due {
            active_only(all_aged(v.particles, delta_us))
        } else {
            all_aged(v.particles, delta_us)
        },
        cleanup_timer: if due { 0 } else { (v.cleanup_timer + 1) as u32 },
        ..v
    }
}

/// The pool is within its capacity and the cleanup timer within its interval.
pub open spec fn state_wf(v: PoolState) -> bool {
    v.particles.len() <= v.max_particles && v.cleanup_timer < CLEANUP_INTERVAL
}

/// A row of bursts keeps the pool within its capacity and never shrinks it.
pub proof fn lemma_bursts_wf(v: PoolState, lifetimes: Seq<u64>, times: nat)
    requires
        state_wf(v),
    ensures
        state_wf(bursts(v, lifetimes, times)),
        bursts(v, lifetimes, times).max_particles == v.max_particles,
        bursts(v, lifetimes, times).cleanup_timer == v.cleanup_timer,
        v.particles.len() <= bursts(v, lifetimes, times).particles.len(),
    decreases times,
{
    if times > 0 {
        lemma_bursts_wf(v, lifetimes, (times - 1) as nat);
    }
}

/// The active count is the number of particles that compaction keeps, and
/// at most the number of particles.
pub proof fn lemma_active_count_bound(s: Seq<WebParticle>)
    ensures
        active_count(s) <= s.len(),
        active_count(s) == active_only(s).len(),
    decreases s.len(),
{
    if s.len() > 0 {
        lemma_active_count_bound(s.drop_last());
    }
}

/// The active count of two runs of particles, one after the other, is the
/// sum of their active counts.
pub proof fn lemma_active_count_concat(a: Seq<WebParticle>, b: Seq<WebParticle>)
    ensures
        active_count(a + b) == active_count(a) + active_count(b),
    decreases b.len(),
{
    if b.len() == 0 {
        assert(a + b =~= a);
    } else {
        assert((a + b).drop_last() =~= a + b.drop_last());
        assert((a + b).last() == b[b.len() - 1]);
        lemma_active_count_concat(a, b.drop_last());
    }
}

/// Where every particle is active, the active count is the number of particles.
pub proof fn lemma_all_active(b: Seq<WebParticle>)
    requires
        forall|i: int| 0 <= i < b.len() ==> (#[trigger] b[i]).active,
    ensures
        active_count(b) == b.len(),
    decreases b.len(),
{
    if b.len() > 0 {
        assert(b[b.len() - 1].active);
        lemma_all_active(b.drop_last());
    }
}

/// No particle counts without life: a fresh one is active exactly where it
/// is given some, and after aging every active one has some left, whatever
/// it was before.
pub proof fn lemma_no_life_no_part(id: u64, life: u64, p: WebParticle, delta_us: u64)
    ensures
        fresh(id, life).active <==> life > 0,
        aged(p, delta_us).active ==> aged(p, delta_us).life > 0,
{
}

/// Compaction keeps exactly the active particles: everything left is active,
/// and the active count is what it was.
pub proof fn lemma_active_only(s: Seq<WebParticle>)
    ensures
        active_only(s).len() <= s.len(),
        forall|i: int| 0 <= i < active_only(s).len() ==> (#[trigger] active_only(s)[i]).active,
        active_count(active_only(s)) == active_count(s),
    decreases s.len(),
{
    if s.len() > 0 {
        lemma_active_only(s.drop_last());
        if s.last().active {
            assert(active_only(s).drop_last() =~= active_only(s.drop_last()));
        }
    }
}

/// Aging never gives a particle life, nor brings an inactive one back.
pub proof fn lemma_life_never_grows(p: WebParticle, delta_us: u64)
    ensures
        aged(p, delta_us).life <= p.life,
        aged(p, delta_us).max_life == p.max_life,
        aged(p, delta_us).active ==> p.active && aged(p, delta_us).life > 0,
        p.active && p.life <= delta_us ==> !aged(p, delta_us).active,
{
}

impl WebParticle {
    /// A particle with serial number `id` at the start of a life of `life`
    /// microseconds: active, unless it is given no life at all.
    pub fn new(id: u64, life: u64) -> (p: Self)
        ensures
            p == fresh(id, life),
    {
        WebParticle { id, life, max_life: life, active: life > 0 }
    }

    /// Ages the particle by `delta_us` microseconds.
    pub fn update(&mut self, delta_us: u64)
        ensures
            *final(self) == aged(*old(self), delta_us),
    {
        if !self.active {
            return ;
        }
        if self.life <= delta_us {
            self.life = 0;
            self.active = false;
        } else {
            self.life = self.life - delta_us;
        }
    }

    /// Remaining life in thousandths of the whole.
    pub fn life_ratio(&self) -> (ratio: u32)
        ensures
            ratio == ratio_of(*self),
            ratio <= FULL_RATIO,
    {
        if self.max_life > 0 {
            let scaled: u128 = self.life as u128 * 1000;
            let r: u128 = scaled / (self.max_life as u128);
            if r > 1000 {
                FULL_RATIO
            } else {
                r as u32
            }
        } else {
            0
        }
    }

    /// Opacity in thousandths: the life ratio.
    pub fn alpha(&self) -> (alpha: u32)
        ensures
            alpha == ratio_of(*self),
            alpha <= FULL_RATIO,
    {
        self.life_ratio()
    }
}

impl ParticleEmitter {
    /// The interval is positive and the timer within it.
    pub open spec fn wf(self) -> bool {
        self.interval > 0 && self.timer < self.interval
    }

    /// Checks at run time what `wf` states.
    pub fn is_valid(&self) -> (valid: bool)
        ensures
            valid == self.wf(),
    {
        self.interval > 0 && self.timer < self.interval
    }

    /// Particles that fall due when `delta_us` microseconds pass.
    pub open spec fn due(self, delta_us: u64) -> int {
        (self.timer + delta_us) / (self.interval as int)
    }

    /// The emitter after `delta_us` microseconds: the timer keeps what is left
    /// of an interval, and the emitter stops once its lifetime is used up.
    pub open spec fn after(self, delta_us: u64) -> ParticleEmitter {
        if !self.active {
            self
        } else {
            ParticleEmitter {
                timer: ((self.timer + delta_us) % (self.interval as int)) as u64,
                remaining: if self.remaining > delta_us {
                    (self.remaining - delta_us) as u64
                } else {
                    0
                },
                active: self.remaining > delta_us,
                ..self
            }
        }
    }

    /// An emitter that releases one particle of lifetime `particle_life` every
    /// `interval` microseconds for `lifetime` microseconds. An interval of zero
    /// counts as one microsecond.
    pub fn new(interval: u64, lifetime: u64, particle_life: u64) -> (e: Self)
        ensures
            e.wf(),
            e == (ParticleEmitter {
                interval: if interval == 0 { 1 } else { interval },
                timer: 0,
                remaining: lifetime,
                particle_life,
                active: true,
            }),
    {
        ParticleEmitter {
            interval: if interval == 0 { 1 } else { interval },
            timer: 0,
            remaining: lifetime,
            particle_life,
            active: true,
        }
    }
}

impl WebParticleSystem {
    /// The pool's mathematical content.
    pub open spec fn view(&self) -> PoolState {
        PoolState {
            particles: self.particles@,
            max_particles: self.max_particles,
            cleanup_timer: self.cleanup_timer,
            next_id: self.next_id,
        }
    }

    /// What `state_wf` says of the pool's content.
    pub open spec fn wf(&self) -> bool {
        state_wf(self@)
    }

    /// Checks at run time what `wf` states.
    pub fn is_valid(&self) -> (valid: bool)
        ensures
            valid == self.wf(),
    {
        self.particles.len() <= self.max_particles && self.cleanup_timer < CLEANUP_INTERVAL
    }

    /// An empty pool that holds at most `max_particles`.
    pub fn new(max_particles: usize) -> (pool: Self)
        ensures
            pool.wf(),
            pool@ == (PoolState {
                particles: Seq::<WebParticle>::empty(),
                max_particles,
                cleanup_timer: 0,
                next_id: 0,
            }),
    {
        WebParticleSystem { particles: Vec::new(), max_particles, cleanup_timer: 0, next_id: 0 }
    }

    /// Adds a burst with one particle for each of the first lifetimes given,
    /// as many as the burst limit and the room left allow, and returns how
    /// many were added. A particle given no life is added inactive. The pool
    /// never grows past its capacity.
    pub fn create_explosion(&mut self, lifetimes: &Vec<u64>) -> (spawned: usize)
        requires
            old(self).wf(),
        ensures
            final(self).wf(),
            spawned == burst_size(
                lifetimes.len() as int,
                old(self).particles.len() as int,
                old(self).max_particles as int,
            ),
            final(self)@ == burst(old(self)@, lifetimes@),
            final(self).particles.len() == old(self).particles.len() + spawned,
            final(self).particles.len() <= final(self).max_particles,
            active_count(final(self).particles@) == active_count(old(self).particles@)
                + active_count(burst_of(lifetimes@, spawned as int, old(self).next_id)),
            (forall|i: int| 0 <= i < spawned ==> lifetimes@[i] > 0) ==> active_count(
                final(self).particles@,
            ) == active_count(old(self).particles@) + spawned,
    {
        let room: usize = self.max_particles - self.particles.len();
        let limited: usize = if lifetimes.len() > BURST_LIMIT { BURST_LIMIT } else {
            lifetimes.len()
        };
        let count: usize = if limited > room { room } else { limited };
        let ghost first_id = self.next_id;
        let mut i: usize = 0;
        while i < count
            invariant
                i <= count,
                count <= lifetimes.len(),
                old(self).particles.len() + count <= self.max_particles,
                self.max_particles == old(self).max_particles,
                self.cleanup_timer == old(self).cleanup_timer,
                first_id == old(self).next_id,
                self.next_id == serial(first_id, i as int),
                self.particles@ == old(self).particles@ + burst_of(lifetimes@, i as int, first_id),
            decreases count - i,
        {
            self.particles.push(WebParticle::new(self.next_id, lifetimes[i]));
            self.next_id = self.next_id.wrapping_add(1);
            assert(self.particles@ =~= old(self).particles@ + burst_of(
                lifetimes@,
                i + 1,
                first_id,
            ));
            i = i + 1;
        }
        proof {
            let added = burst_of(lifetimes@, count as int, first_id);
            lemma_active_count_concat(old(self).particles@, added);
            if forall|i: int| 0 <= i < count ==> lifetimes@[i] > 0 {
                assert forall|i: int| 0 <= i < added.len() implies (#[trigger] added[i]).active by {
                    assert(lifetimes@[i] > 0);
                }
                lemma_all_active(added);
            }
        }
        count
    }

    /// Adds `times` bursts in a row, each with the given lifetimes, and
    /// returns what each of them added.
    pub fn create_explosions(&mut self, lifetimes: &Vec<u64>, times: usize) -> (added: Vec<Burst>)
        requires
            old(self).wf(),
        ensures
            final(self).wf(),
            final(self)@ == bursts(old(self)@, lifetimes@, times as nat),
            added@.len() == times,
            forall|k: int|
                0 <= k < times ==> #[trigger] added@[k] == burst_at(
                    old(self)@,
                    lifetimes@,
                    k as nat,
                ),
    {
        let mut added: Vec<Burst> = Vec::new();
        let mut k: usize = 0;
        while k < times
            invariant
                k <= times,
                self.wf(),
                self@ == bursts(old(self)@, lifetimes@, k as nat),
                added@.len() == k,
                forall|j: int|
                    0 <= j < k ==> #[trigger] added@[j] == burst_at(
                        old(self)@,
                        lifetimes@,
                        j as nat,
                    ),
            decreases times - k,
        {
            let first_id: u64 = self.next_id;
            let count: usize = self.create_explosion(lifetimes);
            added.push(Burst { first_id, count });
            k = k + 1;
        }
        added
    }

    /// Number of particles that are still active.
    pub fn active_particle_count(&self) -> (count: usize)
        ensures
            count == active_count(self.particles@),
    {
        let mut count: usize = 0;
        let mut i: usize = 0;
        while i < self.particles.len()
            invariant
                i <= self.particles.len(),
                count <= i,
                count == active_count(self.particles@.take(i as int)),
            decreases self.particles.len() - i,
        {
            assert(self.particles@.take(i + 1).drop_last() =~= self.particles@.take(i as int));
            if self.particles[i].active {
                count = count + 1;
            }
            i = i + 1;
        }
        assert(self.particles@.take(i as int) =~= self.particles@);
        count
    }

    /// The active particles, in the order of the pool: what the host draws.
    pub fn active_particles(&self) -> (active: Vec<WebParticle>)
        ensures
            active@ == active_only(self.particles@),
    {
        let mut active: Vec<WebParticle> = Vec::new();
        let mut i: usize = 0;
        while i < self.particles.len()
            invariant
                i <= self.particles.len(),
                active@ == active_only(self.particles@.take(i as int)),
            decreases self.particles.len() - i,
        {
            assert(self.particles@.take(i + 1).drop_last() =~= self.particles@.take(i as int));
            if self.particles[i].active {
                active.push(self.particles[i]);
            }
            i = i + 1;
        }
        assert(self.particles@.take(i as int) =~= self.particles@);
        active
    }

    /// Ages every particle by `delta_us` microseconds. Nothing is removed.
    pub fn advance(&mut self, delta_us: u64)
        ensures
            final(self).particles@ == all_aged(old(self).particles@, delta_us),
            final(self).max_particles == old(self).max_particles,
            final(self).cleanup_timer == old(self).cleanup_timer,
            final(self).next_id == old(self).next_id,
    {
        let n: usize = self.particles.len();
        let mut i: usize = 0;
        while i < n
            invariant
                i <= n,
                n == self.particles.len(),
                n == old(self).particles.len(),
                self.max_particles == old(self).max_particles,
                self.cleanup_timer == old(self).cleanup_timer,
                self.next_id == old(self).next_id,
                forall|k: int| 0 <= k < i ==> self.particles[k] == aged(old(self).particles[k], delta_us),
                forall|k: int| i <= k < n ==> self.particles[k] == old(self).particles[k],
            decreases n - i,
        {
            self.particles[i].update(delta_us);
            i = i + 1;
        }
        assert(self.particles@ =~= all_aged(old(self).particles@, delta_us));
    }

    /// Drops the inactive particles and keeps the active ones in their order.
    pub fn compact(&mut self)
        ensures
            final(self).particles@ == active_only(old(self).particles@),
            final(self).particles.len() <= old(self).particles.len(),
            final(self).max_particles == old(self).max_particles,
            final(self).cleanup_timer == old(self).cleanup_timer,
            final(self).next_id == old(self).next_id,
    {
        let mut kept: Vec<WebParticle> = Vec::new();
        let mut i: usize = 0;
        while i < self.particles.len()
            invariant
                i <= self.particles.len(),
                *self == *old(self),
                kept@ == active_only(self.particles@.take(i as int)),
            decreases self.particles.len() - i,
        {
            assert(self.particles@.take(i + 1).drop_last() =~= self.particles@.take(i as int));
            if self.particles[i].active {
                kept.push(self.particles[i]);
            }
            i = i + 1;
        }
        proof {
            assert(self.particles@.take(i as int) =~= self.particles@);
            lemma_active_only(self.particles@);
        }
        self.particles = kept;
    }

    /// One tick of the pool: every particle ages by `delta_us` microseconds,
    /// and on every `CLEANUP_INTERVAL`th tick the inactive ones are dropped.
    /// Says whether this tick compacted the pool.
    pub fn update(&mut self, delta_us: u64) -> (compacted: bool)
        requires
            old(self).wf(),
        ensures
            final(self).wf(),
            compacted == (old(self).cleanup_timer + 1 >= CLEANUP_INTERVAL),
            final(self)@ == ticked(old(self)@, delta_us),
    {
        self.advance(delta_us);
        self.cleanup_timer = self.cleanup_timer + 1;
        if self.cleanup_timer >= CLEANUP_INTERVAL {
            self.compact();
            self.cleanup_timer = 0;
            true
        } else {
            false
        }
    }

    /// Lets `emitter` run for `delta_us` microseconds: one particle for every
    /// interval that falls due, as far as the pool has room. Returns how many
    /// were added. An emitter that is not active adds nothing, and one whose
    /// particles are given no life adds them inactive.
    pub fn emit(&mut self, emitter: &mut ParticleEmitter, delta_us: u64) -> (spawned: usize)
        requires
            old(self).wf(),
            old(emitter).wf(),
        ensures
            final(self).wf(),
            final(emitter).wf(),
            *final(emitter) == old(emitter).after(delta_us),
            final(self).max_particles == old(self).max_particles,
            final(self).cleanup_timer == old(self).cleanup_timer,
            final(self).next_id == serial(old(self).next_id, spawned as int),
            spawned == (if !old(emitter).active {
                0
            } else if old(emitter).due(delta_us) > old(self).max_particles
                - old(self).particles.len() {
                old(self).max_particles - old(self).particles.len()
            } else {
                old(emitter).due(delta_us)
            }),
            final(self).particles@ == old(self).particles@ + stream_of(
                old(emitter).particle_life,
                spawned as int,
                old(self).next_id,
            ),
    {
        if !emitter.active {
            assert(self.particles@ =~= old(self).particles@ + stream_of(
                emitter.particle_life,
                0,
                self.next_id,
            ));
            return 0;
        }
        let ghost first_id = self.next_id;
        let elapsed: u128 = emitter.timer as u128 + delta_us as u128;
        let due: u128 = elapsed / (emitter.interval as u128);
        let left: u128 = elapsed % (emitter.interval as u128);
        let room: usize = self.max_particles - self.particles.len();
        let count: usize = if due > room as u128 { room } else { due as usize };
        let life: u64 = emitter.particle_life;
        emitter.timer = left as u64;
        if emitter.remaining > delta_us {
            emitter.remaining = emitter.remaining - delta_us;
        } else {
            emitter.remaining = 0;
            emitter.active = false;
        }
        let mut i: usize = 0;
        while i < count
            invariant
                i <= count,
                old(self).particles.len() + count <= self.max_particles,
                self.max_particles == old(self).max_particles,
                self.cleanup_timer == old(self).cleanup_timer,
                first_id == old(self).next_id,
                self.next_id == serial(first_id, i as int),
                self.particles@ == old(self).particles@ + stream_of(life, i as int, first_id),
            decreases count - i,
        {
            self.particles.push(WebParticle::new(self.next_id, life));
            self.next_id = self.next_id.wrapping_add(1);
            assert(self.particles@ =~= old(self).particles@ + stream_of(life, i + 1, first_id));
            i = i + 1;
        }
        count
    }

    /// Empties the pool.
    pub fn clear(&mut self)
        ensures
            final(self)@ == (PoolState { particles: Seq::<WebParticle>::empty(), ..old(self)@ }),
    {
        self.particles.clear();
    }
}

} // verus!
