use vectorcade::asteroids::entities::{
    Asteroid, AsteroidDraw, AsteroidSize, Bullet, Particle, Ship, SparkDraw, SplitDraw,
};
use vectorcade::asteroids::rendering::render_hud;
use vectorcade::draw::DrawCmd;
use vectorcade::asteroids::{
    handle_collisions, update_bullets, update_particles, Asteroids, Supply, MAX_ASTEROIDS,
};
use vectorcade::geom::V2;
use vectorcade::input::{Button, Keys};

fn supply() -> Supply {
    let spawn = AsteroidDraw {
        edge: 0,
        along: 0,
        dir: V2::new(10_000, 0),
        speed: 2_000,
        rot: 0,
        rot_speed: 0,
        shape_seed: 1,
    };
    let split = SplitDraw {
        offset: V2::new(10_000, 0),
        dir: V2::new(0, 10_000),
        rot: 0,
        rot_speed: 0,
        shape_seed: 2,
    };
    let spark = SparkDraw { dir: V2::new(10_000, 0), speed: 3_000 };
    Supply { spawns: vec![spawn; 20], splits: vec![split; 16], sparks: vec![spark; 50] }
}

fn east() -> V2 {
    V2::new(10_000, 0)
}

fn rock(x: i64, y: i64, size: AsteroidSize) -> Asteroid {
    Asteroid { pos: V2::new(x, y), vel: V2::new(0, 0), size, rot: 0, rot_speed: 0, shape_seed: 0 }
}

#[test]
fn asteroids_advances() {
    let sup = supply();
    let mut g = Asteroids::new();
    g.reset(&sup);
    let initial_asteroids = g.asteroids.len();
    assert!(initial_asteroids > 0, "should spawn asteroids on reset");
    g.update(&Keys::none(), east(), 960, &sup);
}

#[test]
fn asteroids_reset_spawns_three_plus_level() {
    let sup = supply();
    let mut g = Asteroids::new();
    g.reset(&sup);
    assert_eq!(g.level, 1);
    assert_eq!(g.asteroids.len(), 4);
    for a in &g.asteroids {
        assert_eq!(a.size, AsteroidSize::Large);
        assert_eq!(a.pos, V2::new(0, 10_000));
        assert_eq!(a.vel, V2::new(2_000, 0));
    }
    assert_eq!(g.lives, 3);
    assert_eq!(g.score, 0);
}

#[test]
fn asteroids_cleared_field_starts_next_level() {
    let sup = supply();
    let mut g = Asteroids::new();
    g.update(&Keys::none(), east(), 960, &sup);
    assert_eq!(g.level, 2);
    assert_eq!(g.asteroids.len(), 5);
}

#[test]
fn asteroids_level_count_is_capped() {
    let sup = supply();
    let mut g = Asteroids::new();
    g.level = 30;
    g.update(&Keys::none(), east(), 960, &sup);
    assert_eq!(g.level, 31);
    assert_eq!(g.asteroids.len(), MAX_ASTEROIDS);
}

#[test]
fn asteroid_sizes() {
    assert_eq!(AsteroidSize::Large.points(), 20);
    assert_eq!(AsteroidSize::Medium.points(), 50);
    assert_eq!(AsteroidSize::Small.points(), 100);
    assert_eq!(AsteroidSize::Large.radius(), 1_200);
    assert_eq!(AsteroidSize::Medium.radius(), 600);
    assert_eq!(AsteroidSize::Small.radius(), 300);
    assert_eq!(AsteroidSize::Large.split(), Some(AsteroidSize::Medium));
    assert_eq!(AsteroidSize::Medium.split(), Some(AsteroidSize::Small));
    assert_eq!(AsteroidSize::Small.split(), None);
}

#[test]
fn asteroid_spawn_on_each_edge() {
    let mut d = supply().spawns[0];
    d.along = 3_000;
    d.edge = 0;
    assert_eq!(Asteroid::spawn_random(&d).pos, V2::new(3_000, 10_000));
    d.edge = 1;
    assert_eq!(Asteroid::spawn_random(&d).pos, V2::new(3_000, -10_000));
    d.edge = 2;
    assert_eq!(Asteroid::spawn_random(&d).pos, V2::new(-10_000, 3_000));
    d.edge = 7;
    assert_eq!(Asteroid::spawn_random(&d).pos, V2::new(10_000, 3_000));
}

#[test]
fn asteroid_split_is_smaller_and_faster() {
    let mut parent = rock(1_000, 2_000, AsteroidSize::Large);
    parent.vel = V2::new(3_000, 4_000);
    let d = supply().splits[0];
    let c = Asteroid::spawn_split(&parent, &d);
    assert_eq!(c.size, AsteroidSize::Medium);
    assert_eq!(c.pos, V2::new(1_500, 2_000));
    // speed 5000 * 1.2 along +y
    assert_eq!(c.vel, V2::new(0, 6_000));
    let small = Asteroid::spawn_split(&rock(0, 0, AsteroidSize::Small), &d);
    assert_eq!(small.size, AsteroidSize::Small);
}

#[test]
fn asteroid_wraps_around_field() {
    let mut a = rock(9_900, 0, AsteroidSize::Large);
    a.vel = V2::new(3_000, 0);
    a.update(60_000);
    assert_eq!(a.pos, V2::new(-7_100, 0));
}

#[test]
fn bullet_flies_and_expires() {
    let mut bullets = vec![Bullet::new(V2::new(0, 0), east())];
    assert_eq!(bullets[0].vel, V2::new(15_000, 0));
    assert_eq!(bullets[0].lifetime, 72_000);
    update_bullets(&mut bullets, 60_000);
    assert_eq!(bullets.len(), 1);
    assert_eq!(bullets[0].lifetime, 12_000);
    assert_eq!(bullets[0].pos, V2::new(-5_000, 0));
    update_bullets(&mut bullets, 60_000);
    assert!(bullets.is_empty());
}

#[test]
fn particles_expire() {
    let mut ps = vec![Particle::new(V2::new(0, 0), V2::new(1_000, 0))];
    update_particles(&mut ps, 30_000);
    assert_eq!(ps.len(), 1);
    assert_eq!(ps[0].pos, V2::new(500, 0));
    update_particles(&mut ps, 6_000);
    assert!(ps.is_empty());
}

#[test]
fn bullet_breaks_large_asteroid_into_two_medium() {
    let sup = supply();
    let mut g = Asteroids::new();
    g.asteroids.push(rock(0, 5_000, AsteroidSize::Large));
    g.bullets.push(Bullet { pos: V2::new(0, 5_000), vel: V2::new(0, 0), lifetime: 1_000 });
    handle_collisions(&mut g, &sup);
    assert_eq!(g.score, 20);
    assert!(g.bullets.is_empty());
    assert_eq!(g.asteroids.len(), 2);
    for a in &g.asteroids {
        assert_eq!(a.size, AsteroidSize::Medium);
        assert_eq!(a.pos, V2::new(500, 5_000));
    }
    assert_eq!(g.particles.len(), 8);
    assert_eq!(g.particles[0].vel, V2::new(3_000, 0));
}

#[test]
fn bullet_destroys_small_asteroid_without_pieces() {
    let sup = supply();
    let mut g = Asteroids::new();
    g.asteroids.push(rock(0, 5_000, AsteroidSize::Small));
    g.asteroids.push(rock(0, -5_000, AsteroidSize::Large));
    g.bullets.push(Bullet { pos: V2::new(100, 5_000), vel: V2::new(0, 0), lifetime: 1_000 });
    handle_collisions(&mut g, &sup);
    assert_eq!(g.score, 100);
    assert_eq!(g.asteroids.len(), 1);
    assert_eq!(g.asteroids[0].size, AsteroidSize::Large);
}

#[test]
fn pieces_are_dropped_at_the_ceiling() {
    let sup = supply();
    let mut g = Asteroids::new();
    for i in 0..20 {
        g.asteroids.push(rock(-9_000 + i * 900, 5_000, AsteroidSize::Large));
    }
    g.bullets.push(Bullet { pos: V2::new(-9_000, 5_000), vel: V2::new(0, 0), lifetime: 1_000 });
    handle_collisions(&mut g, &sup);
    assert_eq!(g.asteroids.len(), MAX_ASTEROIDS);
}

#[test]
fn missing_bullet_stays() {
    let sup = supply();
    let mut g = Asteroids::new();
    g.asteroids.push(rock(0, 5_000, AsteroidSize::Large));
    g.bullets.push(Bullet { pos: V2::new(0, -5_000), vel: V2::new(0, 0), lifetime: 1_000 });
    handle_collisions(&mut g, &sup);
    assert_eq!(g.bullets.len(), 1);
    assert_eq!(g.asteroids.len(), 1);
    assert_eq!(g.score, 0);
}

#[test]
fn ship_hit_loses_life_and_respawns_protected() {
    let sup = supply();
    let mut g = Asteroids::new();
    g.ship.pos = V2::new(500, 0);
    g.asteroids.push(rock(0, 0, AsteroidSize::Large));
    handle_collisions(&mut g, &sup);
    assert_eq!(g.lives, 2);
    assert!(!g.game_over);
    assert_eq!(g.ship, Ship::new());
    assert_eq!(g.respawn_timer, 120_000);
    assert_eq!(g.particles.len(), 8);
    assert_eq!(g.particles[0].pos, V2::new(500, 0));
    // protected: the timer counts down by a fixed step instead
    handle_collisions(&mut g, &sup);
    assert_eq!(g.lives, 2);
    assert_eq!(g.respawn_timer, 119_000);
}

#[test]
fn last_life_ends_game() {
    let sup = supply();
    let mut g = Asteroids::new();
    g.lives = 1;
    g.asteroids.push(rock(0, 0, AsteroidSize::Large));
    handle_collisions(&mut g, &sup);
    assert_eq!(g.lives, 0);
    assert!(g.game_over);
    let before = g.asteroids.len();
    g.update(&Keys::none(), east(), 960, &sup);
    assert_eq!(g.asteroids.len(), before);
    assert_eq!(g.lives, 0);
}

#[test]
fn ship_fires_with_cooldown() {
    let sup = supply();
    let mut g = Asteroids::new();
    g.asteroids.push(rock(0, 9_000, AsteroidSize::Large));
    let mut keys = Keys::none();
    keys.space = Button::pressed();
    g.update(&keys, east(), 960, &sup);
    assert_eq!(g.bullets.len(), 1);
    assert_eq!(g.fire_timer, 15_000);
    assert_eq!(g.bullets[0].pos, V2::new(400, 0));
    keys.space = Button::held();
    g.update(&keys, east(), 960, &sup);
    assert_eq!(g.bullets.len(), 1);
    assert_eq!(g.fire_timer, 14_040);
}

#[test]
fn ship_thrust_and_friction() {
    let sup = supply();
    let mut g = Asteroids::new();
    g.asteroids.push(rock(0, 9_000, AsteroidSize::Large));
    let mut keys = Keys::none();
    keys.up = Button::held();
    g.update(&keys, east(), 6_000, &sup);
    assert!(g.ship.thrusting);
    assert_eq!(g.ship.vel, V2::new(1_000, 0));
    assert_eq!(g.ship.pos, V2::new(100, 0));
    g.update(&Keys::none(), east(), 60_000, &sup);
    assert!(!g.ship.thrusting);
    assert_eq!(g.ship.vel, V2::new(500, 0));
}

#[test]
fn ship_speed_is_capped() {
    let sup = supply();
    let mut g = Asteroids::new();
    g.asteroids.push(rock(0, 9_000, AsteroidSize::Large));
    g.ship.vel = V2::new(7_900, 0);
    let mut keys = Keys::none();
    keys.w = Button::held();
    g.update(&keys, east(), 60_000, &sup);
    assert_eq!(g.ship.vel, V2::new(8_000, 0));
}

#[test]
fn steering_turns_ship() {
    let mut g = Asteroids::new();
    let mut keys = Keys::none();
    keys.left = Button::held();
    assert_eq!(g.steered_angle(&keys, 60_000), 40_000);
    keys.left = Button::released();
    keys.right = Button::held();
    assert_eq!(g.steered_angle(&keys, 6_000), -4_000);
    g.ship.angle = 1_000;
    assert_eq!(g.steered_angle(&Keys::none(), 6_000), 1_000);
}

fn spokes(n: usize) -> Vec<Vec<V2>> {
    vec![vec![V2::new(10_000, 0); 8]; n]
}

fn text(c: &DrawCmd) -> String {
    match c {
        DrawCmd::Text { text, .. } => text.iter().collect(),
        _ => String::new(),
    }
}

#[test]
fn pieces_at_the_edge_wrap_into_the_field() {
    let sup = supply();
    let mut g = Asteroids::new();
    g.asteroids.push(rock(9_800, 0, AsteroidSize::Large));
    g.bullets.push(Bullet { pos: V2::new(9_800, 0), vel: V2::new(0, 0), lifetime: 1_000 });
    handle_collisions(&mut g, &sup);
    assert_eq!(g.asteroids.len(), 2);
    assert_eq!(g.asteroids[0].pos, V2::new(-9_700, 0));
}

#[test]
fn new_bullet_at_the_edge_wraps() {
    let sup = supply();
    let mut g = Asteroids::new();
    g.asteroids.push(rock(0, 9_000, AsteroidSize::Large));
    g.ship.pos = V2::new(9_900, -5_000);
    let mut keys = Keys::none();
    keys.space = Button::pressed();
    g.update(&keys, east(), 960, &sup);
    assert_eq!(g.bullets[0].pos, V2::new(-9_700, -5_000));
}

#[test]
fn spin_accumulates_without_wrapping() {
    let mut a = rock(0, 0, AsteroidSize::Large);
    a.rot = 31_416;
    a.rot_speed = 60_000;
    a.update(60_000);
    assert_eq!(a.rot, 91_416);
}

#[test]
fn asteroids_render_twice_is_identical() {
    let sup = supply();
    let mut g = Asteroids::new();
    g.reset(&sup);
    g.update(&Keys::none(), east(), 960, &sup);
    let a = g.render(east(), &spokes(g.asteroids.len()));
    let b = g.render(east(), &spokes(g.asteroids.len()));
    assert_eq!(format!("{:?}", a), format!("{:?}", b));
    // clear, ship, four asteroids, score, three lives
    assert_eq!(a.len(), 1 + 1 + 4 + 1 + 3);
}

#[test]
fn asteroids_render_hides_protected_ship_and_shows_game_over() {
    let mut g = Asteroids::new();
    g.respawn_timer = 1_000;
    let cmds = g.render(east(), &spokes(0));
    assert_eq!(cmds.len(), 1 + 1 + 3);
    g.respawn_timer = 0;
    g.game_over = true;
    g.lives = 0;
    let cmds = g.render(east(), &spokes(0));
    assert_eq!(text(cmds.last().unwrap()), "GAME OVER");
}

#[test]
fn hud_pads_score_to_five_digits() {
    let mut out = Vec::new();
    render_hud(&mut out, 20, 2);
    assert_eq!(out.len(), 3);
    assert_eq!(text(&out[0]), "00020");
    let mut out = Vec::new();
    render_hud(&mut out, 1_234_567, 0);
    assert_eq!(text(&out[0]), "1234567");
}

#[test]
fn particle_alpha_fades() {
    let mut p = Particle::new(V2::new(0, 0), V2::new(1_000, 0));
    assert_eq!(p.alpha(), 255);
    p.lifetime = 18_000;
    assert_eq!(p.alpha(), 127);
}
