use sim_core::ai::AiState;
use sim_core::browser::BrowserInfo;
use sim_core::entity::EntityType;
use sim_core::entity::WebHealth;
use sim_core::entity::WebPhysics;
use sim_core::particles::Burst;
use sim_core::state::FramePlan;
use sim_core::state::KeyOutcome;
use sim_core::state::WebGameState;

fn desktop_game() -> WebGameState {
    WebGameState::new(0, BrowserInfo::default(), &vec![2, 3])
}

fn plan(delta_us: u64, run_collisions: bool, run_particles: bool) -> FramePlan {
    FramePlan {
        delta_us,
        sub_delta_us: delta_us / 4,
        movement_x: 0,
        movement_y: 0,
        touch_active: false,
        run_collisions,
        run_particles,
        report_debug: false,
    }
}

#[test]
fn new_game_holds_the_starting_scene() {
    let game = desktop_game();
    assert_eq!(game.get_entity_count(), 19);
    assert_eq!(game.get_score(), 0);
    assert_eq!(game.level, 1);
    assert!(!game.is_paused());
    assert!(!game.debug_mode);
    assert_eq!(game.get_quality_level(), 2);
    assert_eq!(game.get_particle_count(), 0);
    assert_eq!(game.particle_system.max_particles, 5000);
    assert_eq!(game.get_fps(), 60);
    assert_eq!(game.get_frame_time(), 16_670);

    let player = &game.store.entities[0];
    assert_eq!(player.id, 1);
    assert_eq!(player.name, "Player");
    assert_eq!(player.entity_type, EntityType::Player);
    assert_eq!(player.texture_id, 0);
    assert_eq!(player.physics, Some(WebPhysics {
                is_kinematic: false,
                use_gravity: false,
                freeze_x: false,
                freeze_y: false,
            }));
    assert_eq!(player.health, Some(WebHealth { current: 100, max: 100, regeneration: 0, pending: 0 }));

    for i in 0..18usize {
        let object = &game.store.entities[1 + i];
        assert_eq!(object.id, i as u32 + 2);
        assert_eq!(object.name, format!("Object_{}", i));
        assert_eq!(object.entity_type, EntityType::Environment);
        assert!(object.active);
        assert_eq!(object.physics, Some(WebPhysics {
                is_kinematic: false,
                use_gravity: true,
                freeze_x: false,
                freeze_y: false,
            }));
        assert!(object.health.is_none());
    }
    assert_eq!(game.store.entities[1].texture_id, 2);
    assert_eq!(game.store.entities[2].texture_id, 3);
    assert_eq!(game.store.entities[3].texture_id, 1);
    assert_eq!(game.store.next_entity_id, 20);
}

#[test]
fn mobile_scene_is_smaller() {
    let game = WebGameState::new(0, BrowserInfo::detect("Android", 8), &Vec::new());
    assert_eq!(game.get_entity_count(), 13);
    assert_eq!(game.get_quality_level(), 0);
}

#[test]
fn paused_tick_changes_nothing() {
    let mut game = desktop_game();
    game.update(16_000);
    game.store.take_damage(1, 30).unwrap();
    game.create_explosion(&vec![1_000_000, 2_000_000]);
    game.score = 40;
    game.toggle_pause();
    assert!(game.is_paused());

    let entities_before = format!("{:?}", game.store);
    let particles_before = format!("{:?}", game.particle_system);
    let monitor_before = format!("{:?}", game.performance);
    for k in 1..=5u64 {
        assert_eq!(game.update(16_000 + k * 50_000), None);
    }
    assert_eq!(format!("{:?}", game.store), entities_before);
    assert_eq!(format!("{:?}", game.particle_system), particles_before);
    assert_eq!(format!("{:?}", game.performance), monitor_before);
    assert_eq!(game.get_score(), 40);
    assert!(game.is_paused());
}

#[test]
fn running_tick_hands_out_the_capped_step() {
    let mut game = desktop_game();
    let first = game.update(16_000).unwrap();
    assert_eq!(first.delta_us, 16_000);
    assert_eq!(first.sub_delta_us, 4_000);
    assert!(first.run_collisions);
    assert!(first.run_particles);
    assert!(!first.report_debug);
    assert_eq!((first.movement_x, first.movement_y), (0, 0));
    let second = game.update(1_016_000).unwrap();
    assert_eq!(second.delta_us, 33_000);
    assert_eq!(second.sub_delta_us, 8_250);
}

#[test]
fn plan_follows_quality_and_input() {
    let mut game = desktop_game();
    game.set_quality_level(1);
    game.handle_key_event(68, true, &Vec::new());
    game.handle_key_event(38, true, &Vec::new());
    game.input_system.set_touch(1);
    let medium = game.update(10_000).unwrap();
    assert!(medium.run_collisions);
    assert!(!medium.run_particles);
    assert_eq!((medium.movement_x, medium.movement_y), (1, -1));
    assert!(medium.touch_active);
    game.set_quality_level(0);
    let low = game.update(20_000).unwrap();
    assert!(!low.run_collisions);
    assert!(!low.run_particles);
}

#[test]
fn debug_report_is_due_when_the_frame_count_is_a_multiple_of_sixty() {
    let mut game = desktop_game();
    game.handle_key_event(192, true, &Vec::new());
    assert!(game.debug_mode);
    let first = game.update(1_000).unwrap();
    assert_eq!(game.performance.fps_counter, 1);
    assert!(!first.report_debug);
    let mut now = 1_000u64;
    let mut due = Vec::new();
    for frame in 2..=130u32 {
        now += 1_000;
        if game.update(now).unwrap().report_debug {
            due.push(frame);
        }
    }
    assert_eq!(due, vec![60, 120]);
}

#[test]
fn collisions_with_the_player_score_and_burst() {
    let mut game = desktop_game();
    let hits = vec![(0, 3), (4, 5), (2, 0)];
    let report = game.finish_update(plan(16_000, true, false), &hits, &vec![900_000; 3], &vec![]);
    assert_eq!(report.events, vec![(0, 3), (2, 0)]);
    assert_eq!(
        report.hit_bursts,
        vec![Burst { first_id: 0, count: 3 }, Burst { first_id: 3, count: 3 }]
    );
    assert!(report.removed.is_empty());
    assert!(report.death_bursts.is_empty());
    assert_eq!(game.get_score(), 20);
    assert_eq!(game.get_particle_count(), 6);
    // particles were not ticked at this quality
    assert!(game.particle_system.particles.iter().all(|p| p.life == 900_000));
}

#[test]
fn collisions_are_ignored_when_the_plan_skipped_them() {
    let mut game = desktop_game();
    let report = game.finish_update(plan(16_000, false, true), &vec![(0, 1)], &vec![5; 3], &vec![]);
    assert!(report.events.is_empty());
    assert!(report.hit_bursts.is_empty());
    assert_eq!(game.get_score(), 0);
    assert_eq!(game.get_particle_count(), 0);
    assert_eq!(game.particle_system.cleanup_timer, 1);
}

#[test]
fn particles_tick_when_the_plan_runs_them() {
    let mut game = desktop_game();
    game.create_explosion(&vec![10_000, 50_000]);
    game.finish_update(plan(16_000, true, true), &vec![], &vec![], &vec![]);
    assert_eq!(game.get_particle_count(), 1);
    assert_eq!(game.particle_system.particles.len(), 2);
    assert_eq!(game.particle_system.particles[1].life, 34_000);
}

#[test]
fn score_is_held_at_its_largest_value() {
    let mut game = desktop_game();
    game.score = i32::MAX - 15;
    game.finish_update(plan(0, true, false), &vec![(0, 1), (0, 2)], &vec![], &vec![]);
    assert_eq!(game.get_score(), i32::MAX);
    game.score = i32::MAX - 20;
    game.finish_update(plan(0, true, false), &vec![(0, 1), (0, 2)], &vec![], &vec![]);
    assert_eq!(game.get_score(), i32::MAX);
    game.score = i32::MAX - 21;
    game.finish_update(plan(0, true, false), &vec![(0, 1), (0, 2)], &vec![], &vec![]);
    assert_eq!(game.get_score(), i32::MAX - 1);
}

#[test]
fn entity_without_health_left_is_removed_with_one_burst() {
    let mut game = desktop_game();
    assert!(game.store.take_damage(1, 100).is_ok());
    assert!(!game.store.get(1).unwrap().active);
    assert_eq!(game.get_entity_count(), 19);
    let report = game.finish_update(plan(16_000, true, true), &vec![], &vec![], &vec![700_000; 4]);
    assert_eq!(report.removed, vec![1]);
    assert_eq!(report.death_bursts, vec![Burst { first_id: 0, count: 4 }]);
    assert!(game.store.get(1).is_err());
    assert_eq!(game.get_entity_count(), 18);
    assert_eq!(game.get_particle_count(), 4);
    // spawned after the particles' tick: still at full life
    assert!(game.particle_system.particles.iter().all(|p| p.life == 700_000));
    let again = game.finish_update(plan(16_000, true, true), &vec![], &vec![], &vec![700_000; 4]);
    assert!(again.removed.is_empty());
    assert!(again.death_bursts.is_empty());
}

#[test]
fn regeneration_in_the_tick_can_kill() {
    let mut game = desktop_game();
    game.store.entities[5].health = Some(WebHealth { current: 1, max: 10, regeneration: -100, pending: 0 });
    let report = game.finish_update(plan(33_000, true, true), &vec![], &vec![], &vec![1]);
    assert_eq!(report.removed, vec![6]);
    assert_eq!(report.death_bursts, vec![Burst { first_id: 0, count: 1 }]);
    assert_eq!(game.get_entity_count(), 18);
}

#[test]
fn broad_phase_uses_the_store_order() {
    let mut game = desktop_game();
    let mut cells = vec![(0, 0); 19];
    for (i, cell) in cells.iter_mut().enumerate() {
        *cell = (i as i32, 0);
    }
    cells[7] = (2, 0);
    game.store.entities[4].active = false;
    cells[4] = (2, 0);
    let pairs = game.detect_collisions(&cells);
    assert_eq!(pairs, vec![(2, 7)]);
}

#[test]
fn space_toggles_the_pause() {
    let mut game = desktop_game();
    assert_eq!(game.handle_key_event(32, true, &Vec::new()), KeyOutcome::PauseToggled);
    assert!(game.is_paused());
    assert_eq!(game.handle_key_event(32, false, &Vec::new()), KeyOutcome::Recorded);
    assert!(game.is_paused());
    assert_eq!(game.handle_key_event(32, true, &Vec::new()), KeyOutcome::PauseToggled);
    assert!(!game.is_paused());
}

#[test]
fn tilde_toggles_debug_mode() {
    let mut game = desktop_game();
    assert_eq!(game.handle_key_event(192, true, &Vec::new()), KeyOutcome::DebugToggled);
    assert!(game.debug_mode);
    assert_eq!(game.handle_key_event(192, true, &Vec::new()), KeyOutcome::DebugToggled);
    assert!(!game.debug_mode);
}

#[test]
fn other_keys_are_only_recorded() {
    let mut game = desktop_game();
    assert_eq!(game.handle_key_event(87, true, &Vec::new()), KeyOutcome::Recorded);
    assert!(game.input_system.is_key_pressed(87));
    assert_eq!(game.get_entity_count(), 19);
}

#[test]
fn r_starts_the_game_over() {
    let mut game = desktop_game();
    game.update(5_000);
    game.score = 90;
    game.level = 3;
    game.store.take_damage(1, 100).unwrap();
    game.store.remove_inactive();
    game.create_explosion(&vec![5; 10]);
    game.toggle_pause();
    game.set_quality_level(1);
    let outcome = game.handle_key_event(82, true, &vec![3]);
    assert_eq!(outcome, KeyOutcome::GameReset);
    assert_eq!(game.get_entity_count(), 19);
    assert_eq!(game.store.entities[0].id, 1);
    assert_eq!(game.store.entities[0].name, "Player");
    assert_eq!(game.store.entities[1].texture_id, 3);
    assert_eq!(game.store.entities[18].name, "Object_17");
    assert_eq!(game.get_score(), 0);
    assert_eq!(game.level, 1);
    assert!(!game.is_paused());
    assert!(game.particle_system.particles.is_empty());
    assert_eq!(game.get_quality_level(), 1);
    assert_eq!(game.performance.fps_counter, 0);
    assert_eq!(game.performance.last_frame_time, 5_000);
    assert!(game.input_system.is_key_pressed(82));
}

#[test]
fn added_entities_get_physics_and_a_kind() {
    let mut game = desktop_game();
    let id = game.add_entity(String::from("coin"), "Pickup", 9);
    assert_eq!(id, Some(20));
    let coin = game.store.get(20).unwrap();
    assert_eq!(coin.name, "coin");
    assert_eq!(coin.entity_type, EntityType::Pickup);
    assert_eq!(coin.texture_id, 9);
    assert_eq!(coin.physics, Some(WebPhysics {
                is_kinematic: false,
                use_gravity: true,
                freeze_x: false,
                freeze_y: false,
            }));
    assert!(coin.health.is_none());
    let other = game.add_entity(String::from("what"), "Unheard", 0).unwrap();
    assert_eq!(game.store.get(other).unwrap().entity_type, EntityType::Environment);
}

#[test]
fn full_game_takes_no_more_entities() {
    let mut game = desktop_game();
    while game.get_entity_count() < 2000 {
        assert!(game.add_entity(String::from("x"), "Environment", 0).is_some());
    }
    assert_eq!(game.add_entity(String::from("x"), "Environment", 0), None);
    assert_eq!(game.get_entity_count(), 2000);
    assert_eq!(game.store.next_entity_id, 2001);
    // the factory itself knows no such limit
    assert_eq!(game.create_entity(String::from("y")), Some(2001));
    assert_eq!(game.create_entity(String::from("z")), Some(2002));
    assert_eq!(game.get_entity_count(), 2002);
    assert!(game.is_valid());
    assert_eq!(game.add_entity(String::from("x"), "Environment", 0), None);
}

#[test]
fn weak_devices_start_at_medium_quality() {
    let mut game = desktop_game();
    game.set_browser_capabilities(true, true, false, 8);
    assert_eq!(game.get_quality_level(), 2);
    assert_eq!(game.performance.browser_info.cpu_cores, 8);
    game.set_browser_capabilities(false, false, false, 8);
    assert_eq!(game.get_quality_level(), 1);
    assert!(!game.performance.browser_info.supports_webgl2);
    assert!(!game.performance.browser_info.hardware_acceleration);
    let mut phone = desktop_game();
    phone.set_browser_capabilities(true, true, true, 8);
    assert_eq!(phone.get_quality_level(), 1);
    assert!(phone.performance.browser_info.is_mobile);
}

#[test]
fn quality_overrides_reach_the_governor() {
    let mut game = desktop_game();
    game.set_quality_level(9);
    assert_eq!(game.get_quality_level(), 2);
    assert!(!game.performance.adaptive_quality);
    game.enable_adaptive_quality(true);
    assert!(game.performance.adaptive_quality);
}

#[test]
fn cleanup_drops_entities_and_particles() {
    let mut game = desktop_game();
    game.create_explosion(&vec![5; 10]);
    game.score = 10;
    game.cleanup();
    assert_eq!(game.get_entity_count(), 0);
    assert!(game.particle_system.particles.is_empty());
    assert_eq!(game.get_score(), 10);
    // no identifier is given a second time
    assert_eq!(game.store.next_entity_id, 20);
    assert_eq!(game.create_entity(String::from("later")), Some(20));
}

#[test]
fn a_whole_frame_runs_in_order() {
    let mut game = desktop_game();
    let frame = game.update(16_000).unwrap();
    let cells: Vec<(i32, i32)> = (0..19).map(|i| (i / 2, 0)).collect();
    let pairs = game.detect_collisions(&cells);
    assert_eq!(pairs.len(), 9);
    assert!(pairs.contains(&(0, 1)));
    let report = game.finish_update(frame, &pairs, &vec![1_000_000; 3], &vec![500_000; 2]);
    assert_eq!(report.events, vec![(0, 1)]);
    assert_eq!(game.get_score(), 10);
    assert_eq!(game.particle_system.particles.len(), 3);
    assert_eq!(game.particle_system.particles[0].life, 984_000);
}

#[test]
fn agents_leave_with_their_entities() {
    let mut game = desktop_game();
    game.ai_system.add_agent(2, AiState::Wander);
    game.ai_system.add_agent(3, AiState::Seek);
    game.ai_system.add_agent(4, AiState::Wander);
    game.store.entities[2].active = false;
    let report = game.finish_update(plan(1_000, true, true), &vec![], &vec![], &vec![]);
    assert_eq!(report.removed, vec![3]);
    let ids: Vec<u32> = game.ai_system.agents.iter().map(|a| a.entity_id).collect();
    assert_eq!(ids, vec![2, 4]);
    game.reset_game(&Vec::new());
    assert!(game.ai_system.agents.is_empty());
    game.ai_system.add_agent(2, AiState::Wander);
    game.cleanup();
    assert!(game.ai_system.agents.is_empty());
}

#[test]
fn factory_adds_a_bare_entity() {
    let mut game = desktop_game();
    assert_eq!(game.create_entity(String::from("bare")), Some(20));
    let bare = game.store.get(20).unwrap();
    assert_eq!(bare.name, "bare");
    assert_eq!(bare.entity_type, EntityType::Environment);
    assert!(bare.active);
    assert!(bare.physics.is_none());
    assert!(bare.health.is_none());
}

#[test]
fn touch_events_come_as_coordinate_pairs() {
    let mut game = desktop_game();
    game.handle_touch_event(4);
    assert!(game.input_system.touch_active);
    game.handle_touch_event(1);
    assert!(!game.input_system.touch_active);
    game.handle_touch_event(2);
    assert!(game.input_system.touch_active);
    game.handle_touch_event(0);
    assert!(!game.input_system.touch_active);
}

#[test]
fn game_state_validity_is_checked_at_run_time() {
    let mut game = desktop_game();
    assert!(game.is_valid());
    game.performance.quality_level = 3;
    assert!(!game.is_valid());
    game.performance.quality_level = 2;
    game.particle_system.cleanup_timer = 120;
    assert!(!game.is_valid());
    game.particle_system.cleanup_timer = 0;
    game.performance.fps_timer = 1_000_000;
    assert!(!game.is_valid());
    game.performance.fps_timer = 999_999;
    assert!(game.is_valid());
}

#[test]
fn tick_removes_an_active_entity_without_health_whatever_its_regeneration() {
    let mut game = desktop_game();
    game.store.entities[3].health =
        Some(WebHealth { current: 0, max: 100, regeneration: 500, pending: 0 });
    assert!(game.store.entities[3].active);
    let report = game.finish_update(plan(33_000, true, true), &vec![], &vec![], &vec![9; 2]);
    assert_eq!(report.removed, vec![4]);
    assert_eq!(report.death_bursts.len(), 1);
    assert!(game.store.get(4).is_err());
    assert!(game.store.entities.iter().all(|e| e.is_alive()));
}
