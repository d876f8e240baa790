use weathr::animation::airplanes::{AirplaneSystem, SpawnDraws};
use weathr::animation_manager::{AnimationManager, EffectActivation};
use weathr::render::{Cell, Color, GridRenderer};
use weathr::scene::WorldScene;

fn spawning() -> SpawnDraws {
    SpawnDraws { chance: 0, row: 7, speed: 20, cooldown: 50 }
}

fn quiet() -> SpawnDraws {
    SpawnDraws { chance: 999, row: 0, speed: 0, cooldown: 0 }
}

#[test]
fn spawn_with_cooldown_zero_and_low_draw_adds_one_plane() {
    let mut s = AirplaneSystem::new(80, 24);
    assert_eq!(s.cooldown_ticks(), 0);
    s.update_with(80, 24, spawning());
    assert_eq!(s.len(), 1);
    let (col, row, trail) = s.plane_at(0);
    assert_eq!(col, 0);
    assert_eq!(row, 7 % (24 / 4));
    assert!(row < 24 / 4);
    assert_eq!(trail, 0);
    assert_eq!(s.cooldown_ticks(), 400 + 50);
}

#[test]
fn high_draw_spawns_nothing() {
    let mut s = AirplaneSystem::new(80, 24);
    s.update_with(80, 24, quiet());
    assert_eq!(s.len(), 0);
    assert_eq!(s.cooldown_ticks(), 0);
}

#[test]
fn cooldown_blocks_spawn_and_counts_down() {
    let mut s = AirplaneSystem::new(80, 24);
    s.set_cooldown(5);
    s.update_with(80, 24, spawning());
    assert_eq!(s.len(), 0);
    assert_eq!(s.cooldown_ticks(), 4);
}

#[test]
fn tiny_screen_spawns_nothing() {
    let mut s = AirplaneSystem::new(80, 3);
    s.update_with(80, 3, spawning());
    assert_eq!(s.len(), 0);
}

#[test]
fn planes_move_and_keep_at_most_eight_trail_positions() {
    let mut s = AirplaneSystem::new(200, 24);
    s.update_with(200, 24, spawning());
    // speed 30 + 20 % 21 = 50 hundredths per tick
    for _ in 0..20 {
        s.update_with(200, 24, quiet());
    }
    let (col, _, trail) = s.plane_at(0);
    assert_eq!(col, 10);
    assert_eq!(trail, 8);
}

#[test]
fn planes_leaving_the_right_edge_are_culled() {
    let mut s = AirplaneSystem::new(3, 24);
    s.update_with(3, 24, spawning());
    for _ in 0..5 {
        s.update_with(3, 24, quiet());
    }
    assert_eq!(s.len(), 1);
    s.update_with(3, 24, quiet());
    assert_eq!(s.len(), 0);
}

#[test]
fn shrinking_the_screen_culls_planes_below_it() {
    let mut s = AirplaneSystem::new(80, 24);
    s.update_with(80, 24, spawning());
    s.update_with(80, 1, quiet());
    assert_eq!(s.len(), 0);
}

#[test]
fn random_updates_keep_planes_on_screen() {
    let mut s = AirplaneSystem::new(40, 20);
    for i in 0..3000u32 {
        let (w, h) = if i % 500 < 250 { (40, 20) } else { (25, 8) };
        s.update(w, h);
        for k in 0..s.len() {
            let (col, row, trail) = s.plane_at(k);
            assert!(col < w && row < h && trail <= 8);
        }
    }
}

#[test]
fn plane_art_and_trail_render() {
    let mut s = AirplaneSystem::new(80, 24);
    s.update_with(80, 24, SpawnDraws { chance: 0, row: 0, speed: 0, cooldown: 0 });
    for _ in 0..10 {
        s.update_with(80, 24, quiet());
    }
    // speed 30: after 10 ticks the plane is at 300 hundredths, column 3
    let mut r = GridRenderer::new(80, 24);
    s.render(&mut r);
    // top row of the art: "           _" from column 3
    assert_eq!(r.cell(14, 0), Some(Cell { ch: '_', color: Color::DarkGrey }));
    // spaces of the art are transparent
    assert_eq!(r.cell(3, 0), Some(Cell { ch: ' ', color: Color::Reset }));
    // windows on row 3
    assert_eq!(r.cell(3 + 8, 3), Some(Cell { ch: '"', color: Color::Cyan }));
    // the oldest trail dots are on row 3 at column 0 (positions 30 and 60)
    assert_eq!(r.cell(0, 3), Some(Cell { ch: '·', color: Color::DarkGrey }));
}

#[test]
fn orchestrator_layers_planes_under_the_scene() {
    let mut m = AnimationManager::new(80, 24, false);
    let scene = WorldScene::new(80, 24);
    let mut r = GridRenderer::new(80, 24);
    let active = EffectActivation {
        sun: true,
        clouds: false,
        airplanes: true,
        rain: false,
        thunderstorm: false,
        snow: false,
        fireflies: false,
        leaves: false,
        chimney_smoke: true,
    };
    m.update(80, 24, active, (18, 3));
    m.render_frame(&mut r, &scene, active, true);
    assert_eq!(r.cell(9, 15), Some(Cell { ch: '^', color: Color::Green }));
    assert!(m.airplanes().len() <= 1);
}
