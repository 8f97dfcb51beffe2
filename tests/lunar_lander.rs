use vectorcade::geom::V2;
use vectorcade::input::{Button, Keys};
use vectorcade::lunar_lander::{
    calculate_score, check_landing, GameState, Lander, LandingPad, LunarLander, Terrain,
    TerrainStep,
};

fn pad_terrain() -> Terrain {
    Terrain {
        points: vec![V2::new(-10_000, -5_000), V2::new(10_000, -5_000)],
        pads: vec![LandingPad { x_min: -2_000, x_max: 2_000, y: -5_000, multiplier: 2 }],
    }
}

fn touching(vx: i64, angle: i64) -> Lander {
    let mut l = Lander::new();
    l.pos = V2::new(0, -4_500);
    l.vel = V2::new(vx, 0);
    l.angle = angle;
    l
}

#[test]
fn lander_slow_on_pad_lands() {
    assert_eq!(check_landing(&touching(1_000, 0), &pad_terrain()), GameState::Landed);
}

#[test]
fn lander_fast_on_pad_crashes() {
    assert_eq!(check_landing(&touching(10_000, 0), &pad_terrain()), GameState::Crashed);
}

#[test]
fn lander_tilted_crashes() {
    assert_eq!(check_landing(&touching(1_000, 3_000), &pad_terrain()), GameState::Crashed);
    assert_eq!(check_landing(&touching(1_000, -2_999), &pad_terrain()), GameState::Landed);
}

#[test]
fn lander_off_pad_crashes() {
    let mut l = touching(1_000, 0);
    l.pos.x = 5_000;
    assert_eq!(check_landing(&l, &pad_terrain()), GameState::Crashed);
}

#[test]
fn lander_above_ground_keeps_flying() {
    let mut l = touching(1_000, 0);
    l.pos.y = -4_499;
    assert_eq!(check_landing(&l, &pad_terrain()), GameState::Playing);
}

#[test]
fn surface_interpolates_between_points() {
    let t = Terrain { points: vec![V2::new(-10_000, -5_000), V2::new(0, -3_000)], pads: vec![] };
    assert_eq!(t.surface_y_at(-5_000), -4_000);
    assert_eq!(t.surface_y_at(0), -3_000);
    assert_eq!(t.surface_y_at(5_000), -9_000);
    assert_eq!(Terrain::new().surface_y_at(0), -9_000);
}

#[test]
fn pad_lookup() {
    let t = pad_terrain();
    assert_eq!(t.pad_at(0).map(|p| p.multiplier), Some(2));
    assert!(t.pad_at(2_001).is_none());
}

#[test]
fn landing_score_counts_fuel() {
    let l = Lander::new();
    assert_eq!(calculate_score(&l), 1_100);
    let mut e = Lander::new();
    e.fuel = 0;
    assert_eq!(calculate_score(&e), 100);
    assert!(e.is_out_of_fuel());
    assert!(!l.is_out_of_fuel());
}

#[test]
fn terrain_without_pads_spans_field() {
    let steps = vec![TerrainStep { step: 1_000, chance: 5_000, pad_width: 1_000, dy: 100 }; 26];
    let t = Terrain::generate(-6_000, &steps);
    assert!(t.pads.is_empty());
    assert_eq!(t.points.len(), 21);
    assert_eq!(t.points[0], V2::new(-10_000, -6_000));
    assert_eq!(t.points[20], V2::new(10_000, -4_000));
}

#[test]
fn terrain_makes_at_most_three_pads() {
    let steps = vec![TerrainStep { step: 1_000, chance: 0, pad_width: 1_000, dy: 0 }; 26];
    let t = Terrain::generate(-6_000, &steps);
    assert_eq!(t.pads.len(), 3);
    assert_eq!(t.pads[0], LandingPad { x_min: -10_000, x_max: -8_000, y: -6_000, multiplier: 3 });
    assert_eq!(t.points.last().map(|p| p.x), Some(10_000));
}

#[test]
fn lander_game_flow() {
    let steps = vec![TerrainStep { step: 1_000, chance: 5_000, pad_width: 1_000, dy: 0 }; 26];
    let mut g = LunarLander::new();
    g.reset(-6_000, &steps);
    assert_eq!(g.state, GameState::Instructions);
    let up = V2::new(0, 10_000);
    g.update(&Keys::none(), up, 960);
    assert_eq!(g.state, GameState::Instructions);
    let mut keys = Keys::none();
    keys.space = Button::pressed();
    g.update(&keys, up, 960);
    assert_eq!(g.state, GameState::Playing);
    g.update(&Keys::none(), up, 60_000);
    assert_eq!(g.state, GameState::Playing);
    assert_eq!(g.lander.vel, V2::new(1_000, -1_500));
    assert_eq!(g.lander.pos, V2::new(1_000, 5_500));
    keys.space = Button::held();
    g.update(&keys, up, 6_000);
    assert!(g.lander.thrusting);
    assert_eq!(g.lander.fuel, 985_000);
    assert_eq!(g.lander.vel, V2::new(1_000, -1_300));
}

#[test]
fn lander_game_crash_is_final() {
    let mut g = LunarLander::new();
    g.terrain = pad_terrain();
    g.state = GameState::Playing;
    g.lander = touching(10_000, 0);
    g.update(&Keys::none(), V2::new(0, 10_000), 960);
    assert_eq!(g.state, GameState::Crashed);
    let before = g.lander;
    g.update(&Keys::none(), V2::new(0, 10_000), 960);
    assert_eq!(g.lander, before);
}

#[test]
fn lander_game_landing_scores() {
    let mut g = LunarLander::new();
    g.terrain = pad_terrain();
    g.state = GameState::Playing;
    g.lander = touching(1_000, 0);
    g.update(&Keys::none(), V2::new(0, 10_000), 960);
    assert_eq!(g.state, GameState::Landed);
    assert_eq!(g.score, 1_100);
}

fn text(c: &vectorcade::draw::DrawCmd) -> String {
    match c {
        vectorcade::draw::DrawCmd::Text { text, .. } => text.iter().collect(),
        _ => String::new(),
    }
}

#[test]
fn lander_tilt_accumulates_without_wrapping() {
    let mut g = LunarLander::new();
    g.lander.angle = 31_416;
    let mut keys = Keys::none();
    keys.right = Button::held();
    assert_eq!(g.steered_angle(&keys, 60_000), 56_416);
}

#[test]
fn lander_spun_a_full_turn_is_not_upright() {
    assert_eq!(check_landing(&touching(1_000, 62_832), &pad_terrain()), GameState::Crashed);
}

#[test]
fn lander_render_instructions_then_play() {
    let mut g = LunarLander::new();
    let up = V2::new(0, 10_000);
    let cmds = g.render(up);
    assert_eq!(cmds.len(), 8);
    assert_eq!(text(&cmds[1]), "LUNAR LANDER");
    g.terrain = pad_terrain();
    g.state = GameState::Playing;
    let a = g.render(up);
    let b = g.render(up);
    assert_eq!(format!("{:?}", a), format!("{:?}", b));
    // clear, surface, pad line, pad label, body, two legs, three instruments
    assert_eq!(a.len(), 10);
    assert_eq!(text(&a[3]), "x2");
    assert_eq!(text(&a[7]), "FUEL: 100");
    assert_eq!(text(&a[8]), "VEL: 0.10");
    assert_eq!(text(&a[9]), "ALT: 1.60");
}

#[test]
fn lander_render_banners() {
    let mut g = LunarLander::new();
    g.terrain = pad_terrain();
    g.state = GameState::Playing;
    g.lander = touching(1_000, 0);
    g.update(&Keys::none(), V2::new(0, 10_000), 960);
    let cmds = g.render(V2::new(0, 10_000));
    let n = cmds.len();
    assert_eq!(text(&cmds[n - 2]), "LANDED!");
    assert_eq!(text(&cmds[n - 1]), "SCORE: 1100");
    g.state = GameState::Crashed;
    let cmds = g.render(V2::new(0, 10_000));
    assert_eq!(text(cmds.last().unwrap()), "CRASHED!");
}
