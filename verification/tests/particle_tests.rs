use sim_core::particles::Burst;
use sim_core::particles::ParticleEmitter;
use sim_core::particles::WebParticle;
use sim_core::particles::WebParticleSystem;

fn lifetimes(n: usize, life: u64) -> Vec<u64> {
    vec![life; n]
}

#[test]
fn new_particle_is_active_with_full_life() {
    let p = WebParticle::new(9, 2_000_000);
    assert_eq!(p, WebParticle { id: 9, life: 2_000_000, max_life: 2_000_000, active: true });
    assert_eq!(p.life_ratio(), 1000);
    assert_eq!(p.alpha(), 1000);
}

#[test]
fn particle_life_only_goes_down() {
    let mut p = WebParticle::new(0, 1_000_000);
    p.update(250_000);
    assert_eq!(p.life, 750_000);
    assert!(p.active);
    assert_eq!(p.life_ratio(), 750);
    p.update(0);
    assert_eq!(p.life, 750_000);
    p.update(749_999);
    assert_eq!(p.life, 1);
    assert!(p.active);
    assert_eq!(p.life_ratio(), 0);
    p.update(1);
    assert_eq!(p.life, 0);
    assert!(!p.active);
}

#[test]
fn particle_dies_when_the_step_exceeds_its_life() {
    let mut p = WebParticle::new(0, 10);
    p.update(u64::MAX);
    assert_eq!(p.life, 0);
    assert!(!p.active);
    assert_eq!(p.max_life, 10);
}

#[test]
fn inactive_particle_does_not_change() {
    let mut p = WebParticle { id: 1, life: 500, max_life: 1_000, active: false };
    p.update(100);
    assert_eq!(p, WebParticle { id: 1, life: 500, max_life: 1_000, active: false });
}

#[test]
fn life_ratio_is_in_thousandths_and_clamped() {
    let quarter = WebParticle { id: 0, life: 500_000, max_life: 2_000_000, active: true };
    assert_eq!(quarter.life_ratio(), 250);
    let third = WebParticle { id: 0, life: 1, max_life: 3, active: true };
    assert_eq!(third.life_ratio(), 333);
    let over = WebParticle { id: 0, life: 50, max_life: 10, active: true };
    assert_eq!(over.life_ratio(), 1000);
    let none = WebParticle { id: 0, life: 50, max_life: 0, active: true };
    assert_eq!(none.life_ratio(), 0);
    let huge = WebParticle { id: 0, life: u64::MAX, max_life: u64::MAX, active: true };
    assert_eq!(huge.life_ratio(), 1000);
}

#[test]
fn burst_is_held_to_the_burst_limit() {
    let mut pool = WebParticleSystem::new(5000);
    let spawned = pool.create_explosion(&lifetimes(1000, 1_000_000));
    assert_eq!(spawned, 50);
    assert_eq!(pool.particles.len(), 50);
    assert_eq!(pool.active_particle_count(), 50);
}

#[test]
fn small_burst_is_spawned_whole() {
    let mut pool = WebParticleSystem::new(5000);
    let spawned = pool.create_explosion(&vec![100, 200, 300]);
    assert_eq!(spawned, 3);
    assert_eq!(
        pool.particles,
        vec![
            WebParticle { id: 0, life: 100, max_life: 100, active: true },
            WebParticle { id: 1, life: 200, max_life: 200, active: true },
            WebParticle { id: 2, life: 300, max_life: 300, active: true },
        ]
    );
    assert_eq!(pool.next_id, 3);
    assert_eq!(pool.create_explosion(&Vec::new()), 0);
    assert_eq!(pool.particles.len(), 3);
}

#[test]
fn explosion_of_a_thousand_fills_the_thirty_slots_left() {
    let mut pool = WebParticleSystem::new(100);
    assert_eq!(pool.create_explosion(&lifetimes(50, 1_000_000)), 50);
    assert_eq!(pool.create_explosion(&lifetimes(20, 1_000_000)), 20);
    assert_eq!(pool.particles.len(), 70);
    let spawned = pool.create_explosion(&lifetimes(1000, 1_000_000));
    assert_eq!(spawned, 30);
    assert_eq!(pool.particles.len(), 100);
    assert_eq!(pool.active_particle_count(), 100);
    assert!(pool.particles[70..].iter().all(|p| p.active));
    // a full pool takes nothing more
    assert_eq!(pool.create_explosion(&lifetimes(1000, 1_000_000)), 0);
    assert_eq!(pool.particles.len(), 100);
}

#[test]
fn several_bursts_report_their_sizes() {
    let mut pool = WebParticleSystem::new(8);
    let added = pool.create_explosions(&vec![10, 20, 30], 4);
    assert_eq!(
        added,
        vec![
            Burst { first_id: 0, count: 3 },
            Burst { first_id: 3, count: 3 },
            Burst { first_id: 6, count: 2 },
            Burst { first_id: 8, count: 0 },
        ]
    );
    assert_eq!(pool.particles.len(), 8);
    let lives: Vec<u64> = pool.particles.iter().map(|p| p.life).collect();
    assert_eq!(lives, vec![10, 20, 30, 10, 20, 30, 10, 20]);
    let ids: Vec<u64> = pool.particles.iter().map(|p| p.id).collect();
    assert_eq!(ids, vec![0, 1, 2, 3, 4, 5, 6, 7]);
    assert!(pool.create_explosions(&vec![1], 0).is_empty());
}

#[test]
fn serial_numbers_start_over_after_the_last() {
    let mut pool = WebParticleSystem::new(10);
    pool.next_id = u64::MAX;
    pool.create_explosion(&vec![5, 5, 5]);
    let ids: Vec<u64> = pool.particles.iter().map(|p| p.id).collect();
    assert_eq!(ids, vec![u64::MAX, 0, 1]);
    assert_eq!(pool.next_id, 2);
}

#[test]
fn dead_particles_leave_the_output_at_once_and_storage_later() {
    let mut pool = WebParticleSystem::new(100);
    pool.create_explosion(&vec![10_000, 1_000_000, 20_000, 2_000_000]);
    let compacted = pool.update(20_000);
    assert!(!compacted);
    assert_eq!(pool.particles.len(), 4);
    assert_eq!(pool.active_particle_count(), 2);
    let drawn = pool.active_particles();
    assert_eq!(
        drawn,
        vec![
            WebParticle { id: 1, life: 980_000, max_life: 1_000_000, active: true },
            WebParticle { id: 3, life: 1_980_000, max_life: 2_000_000, active: true },
        ]
    );
    assert_eq!(pool.cleanup_timer, 1);
    for k in 2..120u32 {
        assert!(!pool.update(0));
        assert_eq!(pool.cleanup_timer, k);
        assert_eq!(pool.particles.len(), 4);
    }
    assert!(pool.update(0));
    assert_eq!(pool.cleanup_timer, 0);
    assert_eq!(pool.particles.len(), 2);
    assert_eq!(pool.particles, drawn);
}

#[test]
fn advance_and_compact_can_be_run_apart() {
    let mut pool = WebParticleSystem::new(100);
    pool.create_explosion(&vec![5, 50, 5, 50]);
    pool.advance(5);
    assert_eq!(pool.particles.len(), 4);
    assert_eq!(pool.active_particle_count(), 2);
    assert_eq!(pool.cleanup_timer, 0);
    pool.compact();
    let ids: Vec<u64> = pool.particles.iter().map(|p| p.id).collect();
    assert_eq!(ids, vec![1, 3]);
    assert_eq!(pool.particles[0].life, 45);
}

#[test]
fn clear_empties_the_pool() {
    let mut pool = WebParticleSystem::new(100);
    pool.create_explosion(&vec![5, 50]);
    pool.clear();
    assert!(pool.particles.is_empty());
    assert_eq!(pool.max_particles, 100);
    assert_eq!(pool.next_id, 2);
    assert_eq!(pool.active_particle_count(), 0);
}

#[test]
fn emitter_releases_one_particle_per_interval() {
    let mut pool = WebParticleSystem::new(100);
    let mut emitter = ParticleEmitter::new(100_000, 10_000_000, 700);
    assert_eq!(pool.emit(&mut emitter, 250_000), 2);
    assert_eq!(emitter.timer, 50_000);
    assert_eq!(emitter.remaining, 9_750_000);
    assert!(emitter.active);
    assert_eq!(pool.emit(&mut emitter, 49_999), 0);
    assert_eq!(emitter.timer, 99_999);
    assert_eq!(pool.emit(&mut emitter, 1), 1);
    assert_eq!(emitter.timer, 0);
    assert_eq!(pool.particles.len(), 3);
    assert!(pool.particles.iter().all(|p| p.life == 700 && p.max_life == 700 && p.active));
    let ids: Vec<u64> = pool.particles.iter().map(|p| p.id).collect();
    assert_eq!(ids, vec![0, 1, 2]);
}

#[test]
fn emitter_stops_when_its_lifetime_is_over() {
    let mut pool = WebParticleSystem::new(100);
    let mut emitter = ParticleEmitter::new(10, 25, 1);
    assert_eq!(pool.emit(&mut emitter, 10), 1);
    assert!(emitter.active);
    assert_eq!(emitter.remaining, 15);
    assert_eq!(pool.emit(&mut emitter, 15), 1);
    assert!(!emitter.active);
    assert_eq!(emitter.remaining, 0);
    assert_eq!(emitter.timer, 5);
    assert_eq!(pool.emit(&mut emitter, 1_000), 0);
    assert_eq!(emitter.timer, 5);
    assert_eq!(pool.particles.len(), 2);
}

#[test]
fn emitter_is_truncated_to_the_room_left() {
    let mut pool = WebParticleSystem::new(5);
    let mut emitter = ParticleEmitter::new(1, u64::MAX, 9);
    assert_eq!(pool.emit(&mut emitter, u64::MAX), 5);
    assert_eq!(pool.particles.len(), 5);
    assert!(!emitter.active);
    let mut again = ParticleEmitter::new(1, 100, 9);
    assert_eq!(pool.emit(&mut again, 50), 0);
    assert_eq!(again.remaining, 50);
}

#[test]
fn emitter_interval_of_zero_counts_as_one() {
    let emitter = ParticleEmitter::new(0, 10, 3);
    assert_eq!(emitter.interval, 1);
    assert_eq!(emitter.timer, 0);
    assert_eq!(emitter.remaining, 10);
    assert_eq!(emitter.particle_life, 3);
    assert!(emitter.active);
}

#[test]
fn particle_given_no_life_is_inactive_from_the_start() {
    let p = WebParticle::new(3, 0);
    assert_eq!(p, WebParticle { id: 3, life: 0, max_life: 0, active: false });

    let mut pool = WebParticleSystem::new(10);
    assert_eq!(pool.create_explosion(&vec![0, 5, 0]), 3);
    assert_eq!(pool.particles.len(), 3);
    assert_eq!(pool.active_particle_count(), 1);
    assert_eq!(
        pool.active_particles(),
        vec![WebParticle { id: 1, life: 5, max_life: 5, active: true }]
    );

    let mut emitter = ParticleEmitter::new(10, 100, 0);
    assert_eq!(pool.emit(&mut emitter, 20), 2);
    assert_eq!(pool.particles.len(), 5);
    assert_eq!(pool.active_particle_count(), 1);
}
