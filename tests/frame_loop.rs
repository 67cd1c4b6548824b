use lrtr::event::{Direction, Event, EventKind};
use lrtr::game::Game;
use lrtr::plugins::{add_player_sprite, CirclePlugin, ExitPlugin, PlayerPlugin};
use lrtr::stage::{stage_order, Stage};
use lrtr::system::System;
use lrtr::world::{Action, CirclePosition, DeltaTime, Input, Key, PlayerSprite, UNITS_PER_PIXEL};

fn keys(pressed: Vec<Key>, down: Vec<Key>, released: Vec<Key>) -> Input {
    Input { pressed, down, released }
}

fn idle() -> Input {
    keys(vec![], vec![], vec![])
}

fn px(v: i64) -> i64 {
    v * UNITS_PER_PIXEL
}

#[test]
fn add_systems_appends_in_call_order() {
    let mut game = Game::new();
    game.add_systems(Stage::Producers, vec![System::CircleCreator]);
    game.add_systems(Stage::Renders, vec![System::CircleRenderer]);
    game.add_systems(Stage::Producers, vec![System::GravityEmitter, System::ExitEvaluator]);
    assert_eq!(
        game.systems_in(Stage::Producers),
        vec![System::CircleCreator, System::GravityEmitter, System::ExitEvaluator]
    );
    assert_eq!(game.systems_in(Stage::Renders), vec![System::CircleRenderer]);
    assert_eq!(game.systems_in(Stage::Startup), vec![]);
}

#[test]
fn stages_run_in_declared_order() {
    let mut game = Game::new();
    game.register_event(EventKind::CreateCircle);
    game.add_systems(Stage::Renders, vec![System::CircleRenderer]);
    game.add_systems(Stage::Consumers, vec![System::CircleCreateConsumer]);
    game.add_systems(Stage::Producers, vec![System::CircleCreator]);
    let actions = game.run(1000, &keys(vec![Key::E], vec![], vec![]));
    assert_eq!(actions, vec![Action::DrawCircle { x: px(300), y: px(350) }]);
    assert_eq!(game.circles().len(), 1);
}

#[test]
fn stage_order_is_fixed() {
    assert_eq!(
        stage_order(),
        vec![Stage::Startup, Stage::Main, Stage::Producers, Stage::Consumers, Stage::Renders]
    );
    for (i, s) in stage_order().iter().enumerate() {
        assert_eq!(s.index(), i);
        assert_eq!(Stage::from_index(i), *s);
    }
}

#[test]
fn register_event_twice_keeps_one_queue() {
    let mut game = Game::new();
    game.register_event(EventKind::Exit);
    game.register_event(EventKind::Gravity);
    game.send(Event::Gravity(5));
    game.send(Event::Exit);
    game.register_event(EventKind::Exit);
    game.register_event(EventKind::Exit);
    assert_eq!(game.queue(EventKind::Exit), Some(vec![]));
    assert_eq!(game.queue(EventKind::Gravity), Some(vec![Event::Gravity(5)]));
    assert_eq!(game.queue(EventKind::Movement), None);
}

#[test]
fn unregistered_events_are_dropped() {
    let mut game = Game::new();
    game.send(Event::Exit);
    assert_eq!(game.queue(EventKind::Exit), None);
    game.register_event(EventKind::Exit);
    assert_eq!(game.queue(EventKind::Exit), Some(vec![]));
}

#[test]
fn frame_time_is_installed() {
    let mut game = Game::new();
    assert_eq!(game.delta_time(), None);
    game.run(16000, &idle());
    assert_eq!(game.delta_time(), Some(DeltaTime(16000)));
    game.run(0, &idle());
    assert_eq!(game.delta_time(), Some(DeltaTime(0)));
}

#[test]
fn moved_up_by_speed_times_dt() {
    let mut game = Game::new();
    game.add_plugin(PlayerPlugin);
    add_player_sprite(&mut game, px(20), px(50));
    let actions = game.run(100000, &keys(vec![], vec![Key::W], vec![]));
    let p = game.player().unwrap();
    assert_eq!(p.y, px(40));
    assert_eq!(px(50) - p.y, px(10));
    assert_eq!(p.x, px(20));
    assert_eq!(
        actions,
        vec![
            Action::SpritePlaying(true),
            Action::SpriteAnimation(0),
            Action::CameraTarget { x: px(20), y: px(40) },
            Action::DrawPlayer { x: px(20), y: px(40) },
        ]
    );
}

#[test]
fn each_direction_moves_and_picks_its_row() {
    let cases = [
        (Key::S, 0, 10, 1),
        (Key::A, -10, 0, 2),
        (Key::D, 10, 0, 3),
    ];
    for (key, dx, dy, row) in cases {
        let mut game = Game::new();
        game.add_plugin(PlayerPlugin);
        add_player_sprite(&mut game, px(100), px(100));
        game.run(100000, &keys(vec![], vec![key], vec![]));
        let p = game.player().unwrap();
        assert_eq!((p.x, p.y), (px(100 + dx), px(100 + dy)));
        assert_eq!(p.animation, row);
        assert!(p.playing);
    }
}

#[test]
fn up_wins_over_other_held_keys() {
    let mut game = Game::new();
    game.add_plugin(PlayerPlugin);
    add_player_sprite(&mut game, 0, 0);
    game.run(1, &keys(vec![], vec![Key::D, Key::S, Key::W], vec![]));
    assert_eq!(game.player().unwrap().y, -100);
}

#[test]
fn releasing_a_key_stops_the_walk() {
    let mut game = Game::new();
    game.add_plugin(PlayerPlugin);
    add_player_sprite(&mut game, 0, 0);
    let actions = game.run(10, &keys(vec![], vec![Key::W], vec![Key::A]));
    let p = game.player().unwrap();
    assert_eq!(p, PlayerSprite { x: 0, y: -1000, animation: 0, playing: false });
    assert_eq!(
        actions,
        vec![
            Action::SpritePlaying(true),
            Action::SpriteAnimation(0),
            Action::SpritePlaying(false),
            Action::SpriteFrame(0),
            Action::CameraTarget { x: 0, y: -1000 },
            Action::DrawPlayer { x: 0, y: -1000 },
        ]
    );
}

#[test]
fn no_keys_held_stops_the_animation() {
    let mut game = Game::new();
    game.add_plugin(PlayerPlugin);
    add_player_sprite(&mut game, 5, 6);
    game.run(100000, &idle());
    assert_eq!(game.player().unwrap(), PlayerSprite { x: 5, y: 6, animation: 0, playing: false });
}

#[test]
fn movement_saturates_at_the_edge() {
    let mut game = Game::new();
    game.add_plugin(PlayerPlugin);
    add_player_sprite(&mut game, i64::MAX - 5, i64::MIN + 5);
    game.run(1000, &keys(vec![], vec![Key::W], vec![]));
    assert_eq!(game.player().unwrap().y, i64::MIN);
    game.run(1000, &keys(vec![], vec![Key::D], vec![]));
    assert_eq!(game.player().unwrap().x, i64::MAX);
}

#[test]
fn consumer_without_events_changes_nothing() {
    let mut game = Game::new();
    game.register_event(EventKind::Movement);
    game.add_systems(Stage::Consumers, vec![System::MovementApplier]);
    add_player_sprite(&mut game, px(1), px(2));
    let actions = game.run(100000, &keys(vec![], vec![Key::W], vec![]));
    assert_eq!(actions, vec![]);
    assert_eq!(game.player().unwrap(), PlayerSprite { x: px(1), y: px(2), animation: 0, playing: true });
}

#[test]
fn exit_consumer_ends_the_frame() {
    let mut game = Game::new();
    game.add_plugin(ExitPlugin);
    game.add_plugin(CirclePlugin);
    game.run(0, &keys(vec![Key::E], vec![], vec![]));
    assert_eq!(game.circles().len(), 1);
    let actions = game.run(1000, &keys(vec![Key::Escape, Key::R], vec![], vec![]));
    assert_eq!(actions, vec![Action::Exit(0)]);
    // Systems after the exit consumer did not run: the circle is still there.
    assert_eq!(game.circles().len(), 1);
}

#[test]
fn no_exit_without_escape() {
    let mut game = Game::new();
    game.add_plugin(ExitPlugin);
    let actions = game.run(1000, &keys(vec![Key::E], vec![Key::Escape], vec![]));
    assert_eq!(actions, vec![]);
}

#[test]
fn new_circle_falls_by_gravity_times_dt() {
    let mut game = Game::new();
    game.add_plugin(CirclePlugin);
    let actions = game.run(100000, &keys(vec![Key::E], vec![], vec![]));
    assert_eq!(game.circles(), &vec![CirclePosition { x: px(300), y: px(346) }]);
    assert_eq!(actions, vec![Action::DrawCircle { x: px(300), y: px(346) }]);
    game.run(50000, &idle());
    assert_eq!(game.circles(), &vec![CirclePosition { x: px(300), y: px(344) }]);
}

#[test]
fn destroy_removes_every_circle() {
    let mut game = Game::new();
    game.add_plugin(CirclePlugin);
    game.run(0, &keys(vec![Key::E], vec![], vec![]));
    game.run(0, &keys(vec![Key::E], vec![], vec![]));
    assert_eq!(game.circles().len(), 2);
    let actions = game.run(0, &keys(vec![Key::R], vec![], vec![]));
    assert_eq!(game.circles().len(), 0);
    assert_eq!(actions, vec![]);
}

#[test]
fn events_do_not_outlive_the_frame() {
    let mut game = Game::new();
    game.register_event(EventKind::Gravity);
    game.register_event(EventKind::Movement);
    game.add_systems(Stage::Producers, vec![System::GravityEmitter, System::MovementInput]);
    game.send(Event::Moved(Direction::Left));
    game.run(1000, &idle());
    assert_eq!(game.queue(EventKind::Gravity), Some(vec![]));
    assert_eq!(game.queue(EventKind::Movement), Some(vec![]));
}

#[test]
fn full_game_frame() {
    let mut game = Game::new();
    game.add_plugin(ExitPlugin);
    game.add_plugin(CirclePlugin);
    game.add_plugin(PlayerPlugin);
    add_player_sprite(&mut game, px(400), px(300));
    assert_eq!(
        game.systems_in(Stage::Renders),
        vec![System::CircleRenderer, System::UpdateCameraTarget, System::RenderPlayer]
    );
    let actions = game.run(10000, &keys(vec![Key::E], vec![Key::D], vec![]));
    assert_eq!(
        actions,
        vec![
            Action::SpritePlaying(true),
            Action::SpriteAnimation(3),
            Action::DrawCircle { x: px(300), y: px(350) - 400000 },
            Action::CameraTarget { x: px(401), y: px(300) },
            Action::DrawPlayer { x: px(401), y: px(300) },
        ]
    );
}
