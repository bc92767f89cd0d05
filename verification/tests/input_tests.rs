use sim_core::ai::AIBehaviorModule;
use sim_core::ai::AiState;
use sim_core::ai::Waypoint;
use sim_core::ai::WebAI;
use sim_core::entity::EntityType;
use sim_core::store::EntityStore;
use sim_core::input::WebInputSystem;

#[test]
fn no_key_is_held_at_first() {
    let input = WebInputSystem::new();
    assert!(!input.is_key_pressed(87));
    assert!(!input.touch_active);
    assert_eq!(input.get_movement_input(), (0, 0));
}

#[test]
fn keys_are_held_until_released() {
    let mut input = WebInputSystem::new();
    input.set_key(87, true);
    assert!(input.is_key_pressed(87));
    assert!(!input.is_key_pressed(83));
    input.set_key(87, false);
    assert!(!input.is_key_pressed(87));
}

#[test]
fn letters_and_arrows_move_alike() {
    for (key, axes) in [
        (87u32, (0i8, -1i8)),
        (38, (0, -1)),
        (83, (0, 1)),
        (40, (0, 1)),
        (65, (-1, 0)),
        (37, (-1, 0)),
        (68, (1, 0)),
        (39, (1, 0)),
    ] {
        let mut input = WebInputSystem::new();
        input.set_key(key, true);
        assert_eq!(input.get_movement_input(), axes, "key {}", key);
    }
}

#[test]
fn letter_and_arrow_together_count_once() {
    let mut input = WebInputSystem::new();
    input.set_key(87, true);
    input.set_key(38, true);
    input.set_key(68, true);
    input.set_key(39, true);
    assert_eq!(input.get_movement_input(), (1, -1));
}

#[test]
fn opposite_keys_cancel() {
    let mut input = WebInputSystem::new();
    input.set_key(65, true);
    input.set_key(39, true);
    input.set_key(83, true);
    assert_eq!(input.get_movement_input(), (0, 1));
}

#[test]
fn other_keys_do_not_move() {
    let mut input = WebInputSystem::new();
    input.set_key(32, true);
    input.set_key(0, true);
    assert_eq!(input.get_movement_input(), (0, 0));
}

#[test]
fn touch_is_active_while_a_finger_is_down() {
    let mut input = WebInputSystem::new();
    input.set_touch(2);
    assert!(input.touch_active);
    input.set_touch(0);
    assert!(!input.touch_active);
}

const HERE: Waypoint = Waypoint { x: 10, y: 20 };
const THERE: Waypoint = Waypoint { x: -3, y: 7 };
const FAR: Waypoint = Waypoint { x: 100, y: 100 };

#[test]
fn new_agent_decides_at_once() {
    let mut agent = WebAI::new(4, AiState::Wander);
    assert_eq!(agent.entity_id, 4);
    assert!(agent.enabled);
    assert_eq!(agent.decision_timer, 0);
    assert!(agent.decide(0, HERE, None));
    assert_eq!(agent.decision_timer, 500_000);
    assert_eq!(agent.target, Some(HERE));
    assert_eq!(agent.path, vec![HERE]);
}

#[test]
fn decision_timer_counts_down_between_decisions() {
    let mut agent = WebAI::new(1, AiState::Seek);
    assert!(agent.decide(16_000, HERE, Some(THERE)));
    assert_eq!(agent.target, Some(THERE));
    assert!(!agent.decide(200_000, HERE, Some(FAR)));
    assert_eq!(agent.decision_timer, 300_000);
    assert_eq!(agent.target, Some(THERE));
    assert!(!agent.decide(299_999, HERE, Some(FAR)));
    assert_eq!(agent.decision_timer, 1);
    assert!(agent.decide(1, HERE, Some(FAR)));
    assert_eq!(agent.decision_timer, 500_000);
    assert_eq!(agent.target, Some(FAR));
}

#[test]
fn wanderer_picks_a_point_only_when_it_has_none() {
    let mut agent = WebAI::new(1, AiState::Wander);
    agent.push_waypoint(THERE);
    assert!(agent.decide(0, HERE, None));
    assert_eq!(agent.path, vec![THERE]);
    assert_eq!(agent.target, None);
}

#[test]
fn seeker_keeps_its_target_when_the_quarry_is_gone() {
    for state in [AiState::Seek, AiState::Follow] {
        let mut agent = WebAI::new(1, state);
        agent.decide(0, HERE, Some(THERE));
        assert_eq!(agent.target, Some(THERE));
        agent.decide(500_000, HERE, None);
        assert_eq!(agent.target, Some(THERE));
        assert!(agent.path.is_empty());
    }
}

#[test]
fn idle_and_fleeing_agents_acquire_nothing() {
    for state in [AiState::Idle, AiState::Flee] {
        let mut agent = WebAI::new(1, state);
        assert!(agent.decide(0, HERE, Some(THERE)));
        assert_eq!(agent.target, None);
        assert!(agent.path.is_empty());
        assert_eq!(agent.decision_timer, 500_000);
    }
}

#[test]
fn disabled_agent_neither_decides_nor_steers() {
    let mut agent = WebAI::new(1, AiState::Wander);
    agent.enabled = false;
    agent.target = Some(THERE);
    assert!(!agent.decide(1_000_000, HERE, None));
    assert_eq!(agent.decision_timer, 0);
    assert_eq!(agent.target, Some(THERE));
    assert_eq!(agent.steer(false), None);
    assert_eq!(agent.steer(true), None);
    assert_eq!(agent.target, Some(THERE));
}

#[test]
fn agent_steers_towards_its_target_until_it_arrives() {
    let mut agent = WebAI::new(1, AiState::Idle);
    assert_eq!(agent.steer(false), None);
    agent.target = Some(THERE);
    assert_eq!(agent.steer(false), Some(THERE));
    assert_eq!(agent.target, Some(THERE));
    assert_eq!(agent.steer(true), None);
    assert_eq!(agent.target, None);
    assert_eq!(agent.steer(true), None);
}

#[test]
fn waypoints_are_visited_in_order() {
    let mut agent = WebAI::new(1, AiState::Idle);
    agent.target = Some(HERE);
    agent.push_waypoint(THERE);
    agent.push_waypoint(FAR);
    assert_eq!(agent.steer(true), None);
    assert_eq!(agent.target, Some(THERE));
    assert_eq!(agent.path, vec![FAR]);
    assert_eq!(agent.steer(false), Some(THERE));
    assert_eq!(agent.steer(true), None);
    assert_eq!(agent.target, Some(FAR));
    assert!(agent.path.is_empty());
    assert_eq!(agent.steer(true), None);
    assert_eq!(agent.target, None);
}

#[test]
fn wander_point_is_reached_twice_over() {
    // the wander point is both the head of the path and the target
    let mut agent = WebAI::new(1, AiState::Wander);
    agent.decide(0, HERE, None);
    assert_eq!(agent.steer(true), None);
    assert_eq!(agent.target, Some(HERE));
    assert!(agent.path.is_empty());
    assert_eq!(agent.steer(true), None);
    assert_eq!(agent.target, None);
}

#[test]
fn all_agents_decide_on_the_same_snapshot() {
    let mut module = AIBehaviorModule::new();
    module.add_agent(2, AiState::Seek);
    module.add_agent(3, AiState::Wander);
    module.add_agent(4, AiState::Follow);
    module.add_agent(5, AiState::Wander);
    module.decide_all(0, &vec![HERE, THERE], Some(FAR));
    assert_eq!(module.agents[0].target, Some(FAR));
    assert_eq!(module.agents[1].target, Some(THERE));
    assert_eq!(module.agents[1].path, vec![THERE]);
    assert_eq!(module.agents[2].target, Some(FAR));
    // no wander point was given for the last agent
    assert_eq!(module.agents[3].target, Some(Waypoint { x: 0, y: 0 }));
    assert!(module.agents.iter().all(|a| a.decision_timer == 500_000));
    let ids: Vec<u32> = module.agents.iter().map(|a| a.entity_id).collect();
    assert_eq!(ids, vec![2, 3, 4, 5]);
}

#[test]
fn all_agents_steer_by_their_own_arrival() {
    let mut module = AIBehaviorModule::new();
    module.add_agent(2, AiState::Seek);
    module.add_agent(3, AiState::Seek);
    module.add_agent(4, AiState::Idle);
    module.add_agent(5, AiState::Seek);
    module.decide_all(0, &Vec::new(), Some(FAR));
    let headings = module.steer_all(&vec![false, true, false]);
    assert_eq!(headings, vec![Some(FAR), None, None, Some(FAR)]);
    assert_eq!(module.agents[0].target, Some(FAR));
    assert_eq!(module.agents[1].target, None);
    assert_eq!(module.agents[2].target, None);
    assert_eq!(module.agents[3].target, Some(FAR));
}

#[test]
fn agents_of_removed_entities_are_dropped() {
    let mut store = EntityStore::new();
    for _ in 0..5 {
        store.create_entity(String::from("x"), EntityType::Environment, 0);
    }
    let mut module = AIBehaviorModule::new();
    for id in [5u32, 2, 9, 1, 2, 4] {
        module.add_agent(id, AiState::Wander);
    }
    store.entities[1].active = false;
    store.entities[3].active = false;
    store.remove_inactive();
    module.retain_living(&store);
    let ids: Vec<u32> = module.agents.iter().map(|a| a.entity_id).collect();
    assert_eq!(ids, vec![5, 1]);
    module.retain_living(&EntityStore::new());
    assert!(module.agents.is_empty());
}
