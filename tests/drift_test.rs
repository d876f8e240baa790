use weathr::animation::drift::{DriftDraws, DriftKind, DriftSystem, Drifter};
use weathr::render::{Cell, Color, GridRenderer};
use weathr::scene::WorldScene;

fn born() -> DriftDraws {
    DriftDraws { chance: 0, a: 7, b: 3 }
}

fn none() -> DriftDraws {
    DriftDraws { chance: 999, a: 0, b: 0 }
}

#[test]
fn smoke_rises_from_the_chimney_and_fades() {
    let mut s = DriftSystem::new(DriftKind::Smoke, 80, 24);
    s.update_with(80, 24, true, (18, 10), &vec![], born());
    assert_eq!(s.len(), 1);
    assert_eq!(s.particle_at(0), Drifter { x: 1800, y: 1000, age: 0 });
    // draw 1 means no sideways drift
    s.update_with(80, 24, false, (18, 10), &vec![1], none());
    assert_eq!(s.particle_at(0), Drifter { x: 1800, y: 970, age: 1 });
    s.update_with(80, 24, false, (18, 10), &vec![2], none());
    assert_eq!(s.particle_at(0), Drifter { x: 1820, y: 940, age: 2 });
    let mut r = GridRenderer::new(80, 24);
    s.render(&mut r);
    assert_eq!(r.cell(18, 9), Some(Cell { ch: '~', color: Color::Grey }));
}

#[test]
fn smoke_dies_of_age() {
    let mut s = DriftSystem::new(DriftKind::Smoke, 80, 60);
    s.update_with(80, 60, true, (18, 50), &vec![], born());
    for _ in 0..39 {
        s.update_with(80, 60, false, (18, 50), &vec![1], none());
    }
    assert_eq!(s.len(), 1);
    s.update_with(80, 60, false, (18, 50), &vec![1], none());
    assert_eq!(s.len(), 0);
}

#[test]
fn smoke_needs_the_chimney_on_screen() {
    let mut s = DriftSystem::new(DriftKind::Smoke, 10, 10);
    s.update_with(10, 10, true, (18, 3), &vec![], born());
    assert_eq!(s.len(), 0);
}

#[test]
fn fireflies_start_in_the_lower_half_and_blink() {
    let mut f = DriftSystem::new(DriftKind::Firefly, 40, 20);
    f.update_with(40, 20, true, (0, 0), &vec![], born());
    assert_eq!(f.particle_at(0), Drifter { x: 700, y: 1300, age: 0 });
    let mut r = GridRenderer::new(40, 20);
    f.render(&mut r);
    assert_eq!(r.cell(7, 13), Some(Cell { ch: '*', color: Color::Yellow }));
    // a draw of 20 + 41 * 20 keeps it still
    for _ in 0..8 {
        f.update_with(40, 20, false, (0, 0), &vec![20 + 41 * 20], none());
    }
    assert_eq!(f.particle_at(0), Drifter { x: 700, y: 1300, age: 8 });
    let mut dark = GridRenderer::new(40, 20);
    f.render(&mut dark);
    assert_eq!(dark.cell(7, 13), Some(Cell { ch: ' ', color: Color::Reset }));
}

#[test]
fn leaves_fall_and_sway() {
    let mut l = DriftSystem::new(DriftKind::Leaf, 40, 20);
    l.update_with(40, 20, true, (0, 0), &vec![], born());
    assert_eq!(l.particle_at(0), Drifter { x: 700, y: 0, age: 0 });
    l.update_with(40, 20, false, (0, 0), &vec![], none());
    assert_eq!(l.particle_at(0), Drifter { x: 700, y: 40, age: 1 });
    l.update_with(40, 20, false, (0, 0), &vec![], none());
    assert_eq!(l.particle_at(0), Drifter { x: 720, y: 80, age: 2 });
    l.update_with(40, 20, false, (0, 0), &vec![], none());
    assert_eq!(l.particle_at(0), Drifter { x: 750, y: 120, age: 3 });
}

#[test]
fn random_drift_stays_on_screen() {
    for kind in [DriftKind::Smoke, DriftKind::Firefly, DriftKind::Leaf] {
        let mut s = DriftSystem::new(kind, 40, 20);
        for i in 0..1500u32 {
            let (w, h) = if i % 300 < 150 { (40, 20) } else { (15, 6) };
            s.update(w, h, true, (12, 4));
            for k in 0..s.len() {
                let p = s.particle_at(k);
                assert!(p.x >= 0 && p.x < 100 * w as i32 && p.y >= 0 && p.y < 100 * h as i32);
            }
        }
    }
}

#[test]
fn chimney_sits_on_the_house() {
    let scene = WorldScene::new(80, 24);
    assert_eq!(scene.chimney(), (18, 3));
}
