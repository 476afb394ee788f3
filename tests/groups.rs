use my_first_ggez::actor::{create_player, Actor};
use my_first_ggez::actor_state::{ActorState, SHOT_CADENCE_MICROS};
use my_first_ggez::actor_type::ActorType;
use my_first_ggez::main_state::MainState;
use my_first_ggez::catalog::LoadError;
use my_first_ggez::pattern::Volley;
use my_first_ggez::timer::{NEVER_MICROS, TICK_MICROS};

fn bullet(id: u32, life: i32) -> Actor<u32> {
    Actor::new(ActorType::Bullet, id, life, NEVER_MICROS)
}

fn ids(shots: &Vec<Actor<u32>>) -> Vec<u32> {
    shots.iter().map(|s| *s.get_body()).collect()
}

#[test]
fn new_group_is_idle() {
    let g = ActorState::new(create_player(0u32));
    assert!(g.get_shots().is_empty());
    assert_eq!(g.get_shot_timeout(), 0);
    assert_eq!(g.get_actor().get_tag(), ActorType::Player);
}

#[test]
fn volley_follows_the_tag() {
    let p = ActorState::new(create_player(0u32));
    assert_eq!(p.volley(), Some(Volley::PlayerCone));
    let e = ActorState::new(Actor::new(ActorType::Enemy, 0u32, 3, 0));
    assert_eq!(e.volley(), Some(Volley::EnemyRing));
    let o = ActorState::new(Actor::new(ActorType::Other, 0u32, 3, 0));
    assert_eq!(o.volley(), None);
}

#[test]
fn cadence_gates_firing() {
    let mut g = ActorState::new(create_player(0u32));
    assert_eq!(g.wants_fire(true), None);
    g.update(TICK_MICROS);
    assert_eq!(g.get_shot_timeout(), -TICK_MICROS);
    assert_eq!(g.wants_fire(false), None);
    assert_eq!(g.wants_fire(true), Some(Volley::PlayerCone));
}

#[test]
fn player_fires_cone() {
    let mut g = ActorState::new(create_player(0u32));
    g.fire_shot(vec![1, 2, 3, 4, 5]);
    assert_eq!(g.get_shot_timeout(), SHOT_CADENCE_MICROS);
    assert_eq!(g.get_shot_timeout(), 500_000);
    assert_eq!(ids(g.get_shots()), vec![1, 2, 3, 4, 5]);
    assert!(g.get_shots().iter().all(|s| s.get_tag() == ActorType::Bullet && s.get_life() == i32::MAX));
    g.fire_shot(vec![6, 7, 8, 9, 10]);
    assert_eq!(ids(g.get_shots()), (1..=10).collect::<Vec<u32>>());
}

#[test]
fn other_tag_does_not_fire() {
    let mut g = ActorState::new(Actor::new(ActorType::Other, 0u32, 1, 0));
    g.update(TICK_MICROS);
    g.fire_shot(vec![1, 2]);
    assert!(g.get_shots().is_empty());
    assert_eq!(g.get_shot_timeout(), -TICK_MICROS);
}

#[test]
fn update_ages_shots_and_runs_timers() {
    let mut g = ActorState::new(Actor::new(ActorType::Enemy, 0u32, 3, 500_000));
    g.fire_shot((1..=7).collect());
    assert_eq!(g.get_shots().len(), 7);
    g.update(TICK_MICROS);
    assert!(g.get_shots().iter().all(|s| s.get_life() == i32::MAX - 1));
    assert_eq!(g.get_shot_timeout(), 500_000 - TICK_MICROS);
    assert_eq!(g.get_actor().get_collision_timeout(), -TICK_MICROS);
}

#[test]
fn bullet_with_one_tick_left_is_pruned() {
    let mut g = ActorState::new(create_player(0u32));
    g.get_mut_shots().push(bullet(1, 1));
    g.update(TICK_MICROS);
    assert_eq!(g.get_shots()[0].get_life(), 0);
    g.clear_dead_stuff(&vec![true]);
    assert!(g.get_shots().is_empty());
}

#[test]
fn pruning_keeps_inside_live_shots_in_order() {
    let mut g = ActorState::new(create_player(0u32));
    g.get_mut_shots().extend(vec![bullet(1, 5), bullet(2, 5), bullet(3, 0), bullet(4, 2), bullet(5, -1)]);
    g.clear_dead_stuff(&vec![true, false, true, true, true]);
    assert_eq!(ids(g.get_shots()), vec![1, 4]);
}

#[test]
fn enemies_are_added_fresh() {
    let mut s = MainState::new(create_player(0u32));
    s.add_enemies(vec![Actor::new(ActorType::Enemy, 10, 3, 0), Actor::new(ActorType::Enemy, 11, 1, 0)]);
    let es = s.get_enemies_state();
    assert_eq!(es.len(), 2);
    assert_eq!(*es[1].get_actor().get_body(), 11);
    assert!(es[1].get_shots().is_empty());
    assert_eq!(es[1].get_shot_timeout(), 0);
}

#[test]
fn collisions_cross_between_sides() {
    let mut s = MainState::new(create_player(0u32));
    s.add_enemies(vec![Actor::new(ActorType::Enemy, 10, 3, 500_000), Actor::new(ActorType::Enemy, 11, 3, 500_000)]);
    s.update(TICK_MICROS);
    s.get_mut_player_state().fire_shot((100..105).collect());
    s.get_mut_enemies_state()[0].fire_shot((200..207).collect());
    let mut on_player = vec![false; 7];
    on_player[2] = true;
    s.handle_collisions(&vec![on_player, vec![]], &vec![vec![false; 5], vec![true, true, false, false, false]]);
    assert_eq!(s.get_player_state().get_actor().get_life(), 9);
    assert_eq!(s.get_enemies_state()[0].get_actor().get_life(), 3);
    assert_eq!(s.get_enemies_state()[1].get_actor().get_life(), 2);
    assert_eq!(s.get_player_state().get_shots().len(), 5);
    assert!(!s.is_game_over());
}

#[test]
fn dead_enemies_leave_with_their_shots() {
    let mut s = MainState::new(create_player(0u32));
    s.add_enemies(vec![Actor::new(ActorType::Enemy, 10, 1, 500_000), Actor::new(ActorType::Enemy, 11, 2, 500_000)]);
    s.update(TICK_MICROS);
    s.get_mut_enemies_state()[0].fire_shot((200..207).collect());
    s.get_mut_player_state().fire_shot((100..105).collect());
    s.handle_collisions(&vec![vec![false; 7], vec![]], &vec![vec![true, false, false, false, false], vec![true; 5]]);
    s.clear_dead_stuff(&vec![false; 5], &vec![vec![true; 7], vec![]]);
    assert!(s.get_player_state().get_shots().is_empty());
    let es = s.get_enemies_state();
    assert_eq!(es.len(), 1);
    assert_eq!(*es[0].get_actor().get_body(), 11);
    assert_eq!(es[0].get_actor().get_life(), 1);
}

#[test]
fn game_over_when_player_has_no_life() {
    let mut s = MainState::new(Actor::new(ActorType::Player, 0u32, 1, 500_000));
    s.add_enemies(vec![Actor::new(ActorType::Enemy, 10, 1, 0)]);
    s.update(TICK_MICROS);
    s.handle_collisions(&vec![vec![true]], &vec![vec![]]);
    assert!(s.is_game_over());
}

#[test]
fn surviving_enemies_keep_their_order() {
    let mut s = MainState::new(create_player(0u32));
    s.add_enemies(vec![
        Actor::new(ActorType::Enemy, 10, 2, 0),
        Actor::new(ActorType::Enemy, 11, 0, 0),
        Actor::new(ActorType::Enemy, 12, 5, 0),
        Actor::new(ActorType::Enemy, 13, -1, 0),
    ]);
    s.get_mut_enemies_state()[2].get_mut_shots().push(bullet(7, 3));
    s.clear_dead_stuff(&vec![], &vec![vec![], vec![], vec![true], vec![]]);
    let bodies: Vec<u32> = s.get_enemies_state().iter().map(|e| *e.get_actor().get_body()).collect();
    assert_eq!(bodies, vec![10, 12]);
    assert_eq!(ids(s.get_enemies_state()[1].get_shots()), vec![7]);
}

#[test]
fn shot_count_sums_every_group() {
    let mut s = MainState::new(create_player(0u32));
    assert_eq!(s.shot_count(), 0);
    s.add_enemies(vec![Actor::new(ActorType::Enemy, 10, 2, 0), Actor::new(ActorType::Enemy, 11, 2, 0)]);
    s.get_mut_player_state().fire_shot((1..6).collect());
    s.get_mut_enemies_state()[1].fire_shot((6..13).collect());
    assert_eq!(s.shot_count(), 12);
}

#[test]
fn finish_tick_counts_hits_prunes_and_signals() {
    let mut s = MainState::new(Actor::new(ActorType::Player, 0u32, 1, 500_000));
    s.add_enemies(vec![Actor::new(ActorType::Enemy, 10, 1, 500_000), Actor::new(ActorType::Enemy, 11, 4, 500_000)]);
    s.update(TICK_MICROS);
    s.get_mut_player_state().fire_shot((100..105).collect());
    s.get_mut_enemies_state()[1].fire_shot((200..207).collect());
    s.get_mut_player_state().get_mut_shots()[4].dec_life(i32::MAX - 1);
    let over = s.finish_tick(
        TICK_MICROS,
        &vec![vec![], vec![false, true, false, false, false, false, false]],
        &vec![vec![true, false, false, false, false], vec![false; 5]],
        &vec![true, true, false, true, true],
        &vec![vec![], vec![true; 7]],
    );
    assert!(over);
    assert_eq!(s.get_player_state().get_actor().get_life(), 0);
    assert_eq!(s.get_player_state().get_actor().get_collision_timeout(), 500_000);
    assert_eq!(ids(s.get_player_state().get_shots()), vec![100, 101, 103]);
    assert_eq!(s.get_player_state().get_shot_timeout(), 500_000 - TICK_MICROS);
    let es = s.get_enemies_state();
    assert_eq!(es.len(), 1);
    assert_eq!(*es[0].get_actor().get_body(), 11);
    assert_eq!(es[0].get_actor().get_life(), 4);
    assert_eq!(es[0].get_actor().get_collision_timeout(), -TICK_MICROS);
    assert!(es[0].get_shots().iter().all(|b| b.get_life() == i32::MAX - 1));
}

#[test]
fn finish_tick_without_hits_is_not_over() {
    let mut s = MainState::new(create_player(0u32));
    let over = s.finish_tick(TICK_MICROS, &vec![], &vec![], &vec![], &vec![]);
    assert!(!over);
    assert_eq!(s.get_player_state().get_actor().get_collision_timeout(), -TICK_MICROS);
}

#[test]
fn failed_load_commits_nothing() {
    let mut s = MainState::new(create_player(0u32));
    s.add_enemies(vec![Actor::new(ActorType::Enemy, 10, 1, 0)]);
    let r = s.load_enemies::<LoadError>(Err(LoadError::UnknownTag));
    assert_eq!(r, Err(LoadError::UnknownTag));
    assert_eq!(s.get_enemies_state().len(), 1);
    let r = s.load_enemies::<LoadError>(Ok(vec![Actor::new(ActorType::Enemy, 11, 2, 0)]));
    assert_eq!(r, Ok(()));
    assert_eq!(s.get_enemies_state().len(), 2);
    assert_eq!(*s.get_enemies_state()[1].get_actor().get_body(), 11);
}
