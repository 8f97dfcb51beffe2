use vectorcade::geom::V2;
use vectorcade::input::{Button, Keys};
use vectorcade::tempest::{
    check_collisions, Blaster, Enemy, EnemyDraw, EnemyKind, GameState, Shot, Tempest,
};

fn playing() -> Tempest {
    let mut g = Tempest::new();
    g.state = GameState::Playing;
    g.spawn_timer = 50_000;
    g
}

fn draw() -> EnemyDraw {
    EnemyDraw { segment: 5, kind: 1 }
}

#[test]
fn tempest_starts_on_instructions() {
    let mut g = Tempest::new();
    assert_eq!(g.state, GameState::Instructions);
    assert_eq!(g.segments, 16);
    g.update(&Keys::none(), 960, &draw());
    assert_eq!(g.state, GameState::Instructions);
    assert_eq!(g.blink_timer, 960);
    let mut keys = Keys::none();
    keys.space = Button::pressed();
    g.update(&keys, 960, &draw());
    assert_eq!(g.state, GameState::Playing);
}

#[test]
fn tempest_enemy_kinds() {
    assert_eq!(EnemyKind::Flipper.points(), 150);
    assert_eq!(EnemyKind::Tanker.points(), 100);
    assert_eq!(EnemyKind::Spiker.points(), 50);
    assert_eq!(EnemyKind::Flipper.speed(), 6);
    assert_eq!(EnemyKind::Tanker.speed(), 4);
    assert_eq!(EnemyKind::Spiker.speed(), 3);
}

#[test]
fn tempest_blaster_wraps_around_tube() {
    let mut g = playing();
    let mut keys = Keys::none();
    keys.left = Button::pressed();
    g.update(&keys, 960, &draw());
    assert_eq!(g.blaster.segment, 15);
    keys.left = Button::released();
    keys.right = Button::pressed();
    g.update(&keys, 960, &draw());
    assert_eq!(g.blaster.segment, 0);
}

#[test]
fn tempest_shot_flies_down_and_leaves() {
    let mut g = playing();
    let mut keys = Keys::none();
    keys.space = Button::held();
    g.update(&keys, 960, &draw());
    assert_eq!(g.shots.len(), 1);
    assert_eq!(g.shots[0].depth, 38_400);
    assert_eq!(g.blaster.fire_cooldown, 9_000);
    g.update(&Keys::none(), 30_000, &draw());
    assert!(g.shots.is_empty());
}

#[test]
fn tempest_shot_destroys_enemy_in_band() {
    let mut g = playing();
    g.enemies.push(Enemy { segment: 0, depth: 500, kind: EnemyKind::Flipper, alive: true });
    g.enemies.push(Enemy { segment: 0, depth: 600, kind: EnemyKind::Spiker, alive: true });
    g.shots.push(Shot { segment: 0, depth: 450, alive: true });
    check_collisions(&mut g);
    assert_eq!(g.score, 150);
    assert!(g.shots.is_empty());
    assert_eq!(g.enemies.len(), 1);
    assert_eq!(g.enemies[0].kind, EnemyKind::Spiker);
}

#[test]
fn tempest_shot_in_other_segment_misses() {
    let mut g = playing();
    g.enemies.push(Enemy { segment: 1, depth: 500, kind: EnemyKind::Flipper, alive: true });
    g.shots.push(Shot { segment: 0, depth: 500, alive: true });
    check_collisions(&mut g);
    assert_eq!(g.score, 0);
    assert_eq!(g.shots.len(), 1);
    assert_eq!(g.enemies.len(), 1);
}

#[test]
fn tempest_enemy_at_rim_costs_life() {
    let mut g = playing();
    g.enemies.push(Enemy { segment: 0, depth: 0, kind: EnemyKind::Tanker, alive: true });
    g.enemies.push(Enemy { segment: 3, depth: 0, kind: EnemyKind::Tanker, alive: true });
    check_collisions(&mut g);
    assert_eq!(g.lives, 2);
    assert_eq!(g.state, GameState::Playing);
    assert_eq!(g.enemies.len(), 1);
    assert_eq!(g.enemies[0].segment, 3);
}

#[test]
fn tempest_last_life_ends_game() {
    let mut g = playing();
    g.lives = 1;
    g.enemies.push(Enemy { segment: 0, depth: -10, kind: EnemyKind::Tanker, alive: true });
    check_collisions(&mut g);
    assert_eq!(g.lives, 0);
    assert_eq!(g.state, GameState::GameOver);
    g.update(&Keys::none(), 960, &draw());
    assert_eq!(g.state, GameState::GameOver);
}

#[test]
fn tempest_enemies_climb_and_spawn() {
    let mut g = playing();
    g.spawn_timer = 0;
    g.enemies.push(Enemy::new(2, EnemyKind::Flipper));
    g.update(&Keys::none(), 60_000, &draw());
    assert_eq!(g.enemies.len(), 2);
    assert_eq!(g.enemies[0].depth, 840_000);
    assert_eq!(g.enemies[1].segment, 5);
    assert_eq!(g.enemies[1].kind, EnemyKind::Tanker);
    assert_eq!(g.enemies[1].depth, 1_200_000);
    assert_eq!(g.spawn_timer, 84_000);
}

#[test]
fn tempest_reset_restores_start() {
    let mut g = playing();
    g.score = 500;
    g.blaster = Blaster { segment: 4, fire_cooldown: 0 };
    g.reset();
    assert_eq!(g.score, 0);
    assert_eq!(g.blaster.segment, 0);
    assert_eq!(g.state, GameState::Instructions);
    assert_eq!(g.lives, 3);
}

#[test]
fn tempest_shots_leave_even_with_tiny_steps() {
    let mut g = playing();
    g.shots.push(Shot { segment: 3, depth: 0, alive: true });
    for _ in 0..16_000 {
        g.update(&Keys::none(), 2, &draw());
    }
    assert!(g.shots.is_empty());
}

#[test]
fn tempest_instruction_clock_adds_time() {
    let mut g = Tempest::new();
    g.blink_timer = 3_599_900;
    g.update(&Keys::none(), 960, &draw());
    assert_eq!(g.blink_timer, 3_600_860);
}

fn tube() -> vectorcade::tempest::rendering::Tube {
    let rim = vec![V2::new(0, -7_000), V2::new(7_000, 0), V2::new(0, 7_000), V2::new(-7_000, 0)];
    vectorcade::tempest::rendering::Tube::from_rim(rim, V2::new(0, 0))
}

#[test]
fn tempest_tube_geometry() {
    let t = tube();
    assert_eq!(t.point_at(1, 0), V2::new(7_000, 0));
    assert_eq!(t.point_at(1, 600_000), V2::new(3_500, 0));
    assert_eq!(t.point_at(1, 1_200_000), V2::new(0, 0));
    assert_eq!(t.segment_edges(3), (V2::new(-7_000, 0), V2::new(0, -7_000)));
}

#[test]
fn tempest_render_twice_is_identical() {
    let mut g = Tempest::new();
    g.segments = 4;
    let cmds = g.render(&tube());
    assert_eq!(cmds.len(), 6);
    g.state = GameState::Playing;
    g.shots.push(Shot { segment: 1, depth: 0, alive: true });
    g.enemies.push(Enemy::new(2, EnemyKind::Tanker));
    g.score = 42;
    let a = g.render(&tube());
    let b = g.render(&tube());
    assert_eq!(format!("{:?}", a), format!("{:?}", b));
    // clear, four spokes and the rim, blaster, shot, enemy, two lines of text
    assert_eq!(a.len(), 1 + 5 + 1 + 1 + 1 + 2);
    match &a[9] {
        vectorcade::draw::DrawCmd::Text { text, .. } => assert_eq!(text.iter().collect::<String>(), "000042"),
        _ => panic!("score expected"),
    }
    match &a[10] {
        vectorcade::draw::DrawCmd::Text { text, .. } => assert_eq!(text.iter().collect::<String>(), "L1 x3"),
        _ => panic!("level line expected"),
    }
}
