use vectorcade::battlezone::{
    update_enemies, Battlezone, Enemy, EnemyKind, GameState, ObstacleKind, PlaceDraw, V3,
};
use vectorcade::geom::V2;
use vectorcade::input::{Button, Keys};

fn draws() -> Vec<PlaceDraw> {
    (0..12u32).map(|k| PlaceDraw { dir: V2::new(10_000, 0), dist: 200_000, kind: k % 3 }).collect()
}

fn north() -> V2 {
    V2::new(0, -10_000)
}

#[test]
fn battlezone_reset_places_obstacles() {
    let mut g = Battlezone::new();
    g.reset(&draws());
    assert_eq!(g.obstacles.len(), 12);
    assert_eq!(g.obstacles[0].pos, V3 { x: 200_000, y: 0, z: 0 });
    assert_eq!(g.obstacles[0].kind, ObstacleKind::Cube);
    assert_eq!(g.obstacles[1].kind, ObstacleKind::Pyramid);
    assert_eq!(g.obstacles[2].kind, ObstacleKind::Block);
    assert_eq!(g.state, GameState::Instructions);
}

#[test]
fn battlezone_drives_and_fires() {
    let mut g = Battlezone::new();
    let mut keys = Keys::none();
    keys.space = Button::pressed();
    assert!(g.update_player(&keys, north(), 960).is_none());
    assert_eq!(g.state, GameState::Playing);
    let mut keys = Keys::none();
    keys.up = Button::held();
    assert!(g.update_player(&keys, north(), 60_000).is_none());
    assert_eq!(g.pos, V3 { x: 0, y: 0, z: -50_000 });
    keys.up = Button::released();
    keys.down = Button::held();
    g.update_player(&keys, north(), 60_000);
    assert_eq!(g.pos, V3 { x: 0, y: 0, z: -25_000 });
    let mut keys = Keys::none();
    keys.space = Button::pressed();
    let shot = g.update_player(&keys, north(), 960).unwrap();
    assert_eq!(shot.pos, V3 { x: 0, y: 8_000, z: -35_000 });
    assert_eq!(shot.dir, north());
    assert_eq!(g.fire_cooldown, 30_000);
    assert!(g.update_player(&keys, north(), 960).is_none());
}

#[test]
fn battlezone_hits_score_and_remove_enemies() {
    let mut g = Battlezone::new();
    g.state = GameState::Playing;
    g.enemies.push(Enemy::new(V3 { x: 0, y: 0, z: 100_000 }, EnemyKind::Tank));
    g.enemies.push(Enemy::new(V3 { x: 0, y: 0, z: 200_000 }, EnemyKind::SuperTank));
    let spent = g.check_shot_collisions(&vec![vec![true, true], vec![false, false]]);
    assert_eq!(spent, vec![true, false]);
    assert_eq!(g.score, 1_000);
    assert_eq!(g.enemies.len(), 1);
    assert_eq!(g.enemies[0].kind, EnemyKind::SuperTank);
}

#[test]
fn battlezone_spawns_when_no_enemy_left() {
    let mut g = Battlezone::new();
    g.state = GameState::Playing;
    let d = PlaceDraw { dir: V2::new(0, 10_000), dist: 150_000, kind: 0 };
    g.advance_enemies(960, &d);
    assert_eq!(g.enemies.len(), 1);
    assert_eq!(g.enemies[0].pos, V3 { x: 0, y: 0, z: 150_000 });
    assert_eq!(g.enemies[0].kind, EnemyKind::Tank);
}

#[test]
fn battlezone_enemies_close_in() {
    let mut es = vec![
        Enemy::new(V3 { x: 0, y: 0, z: 200_000 }, EnemyKind::Tank),
        Enemy::new(V3 { x: 50_000, y: 0, z: 0 }, EnemyKind::SuperTank),
    ];
    update_enemies(&mut es, V3 { x: 0, y: 0, z: 0 }, 60_000);
    assert_eq!(es[0].pos, V3 { x: 0, y: 0, z: 180_000 });
    assert_eq!(es[0].fire_timer, 60_000);
    // within the standoff distance the enemy holds its position
    assert_eq!(es[1].pos, V3 { x: 50_000, y: 0, z: 0 });
}
