use weathr::animation::clouds::Clouds;
use weathr::animation::lightning::Lightning;
use weathr::animation::precipitation::{FallDraws, Particle, Precipitation, PrecipitationKind};
use weathr::animation::sun::Sun;
use weathr::animation_manager::{AnimationManager, EffectActivation};
use weathr::render::{Cell, Color, GridRenderer};
use weathr::scene::WorldScene;

fn falls() -> FallDraws {
    FallDraws { chance: 0, column: 13, speed: 5 }
}

fn dry() -> FallDraws {
    FallDraws { chance: 99, column: 0, speed: 0 }
}

fn storm() -> EffectActivation {
    EffectActivation {
        sun: false,
        clouds: true,
        airplanes: false,
        rain: false,
        thunderstorm: true,
        snow: false,
        fireflies: false,
        leaves: false,
        chimney_smoke: true,
    }
}

#[test]
fn rain_spawns_by_intensity() {
    let mut p = Precipitation::new(PrecipitationKind::Rain, 10, 5);
    p.update_with(10, 5, 50, falls());
    assert_eq!(p.len(), 1);
    assert_eq!(p.particle_at(0), Particle { x: 3, y: 0, speed: 85 });
    p.update_with(10, 5, 0, falls());
    assert_eq!(p.len(), 1);
    assert_eq!(p.particle_at(0).y, 85);
    p.update_with(10, 5, 50, FallDraws { chance: 50, column: 0, speed: 0 });
    assert_eq!(p.len(), 1);
}

#[test]
fn snow_falls_slower_and_is_culled_at_the_bottom() {
    let mut p = Precipitation::new(PrecipitationKind::Snow, 10, 2);
    p.update_with(10, 2, 100, FallDraws { chance: 0, column: 4, speed: 0 });
    assert_eq!(p.particle_at(0), Particle { x: 4, y: 0, speed: 20 });
    for _ in 0..9 {
        p.update_with(10, 2, 0, dry());
    }
    assert_eq!(p.len(), 1);
    p.update_with(10, 2, 0, dry());
    assert_eq!(p.len(), 0);
}

#[test]
fn shrinking_screen_culls_particles() {
    let mut p = Precipitation::new(PrecipitationKind::Rain, 20, 10);
    p.update_with(20, 10, 100, FallDraws { chance: 0, column: 15, speed: 0 });
    p.update_with(10, 10, 0, dry());
    assert_eq!(p.len(), 0);
}

#[test]
fn random_precipitation_stays_on_screen() {
    let mut p = Precipitation::new(PrecipitationKind::Rain, 30, 12);
    for i in 0..2000u32 {
        let (w, h) = if i % 400 < 200 { (30, 12) } else { (12, 5) };
        p.update(w, h, 100);
        for k in 0..p.len() {
            let q = p.particle_at(k);
            assert!(q.x < w && q.y < 100 * h as u32);
        }
    }
}

#[test]
fn precipitation_renders_glyphs() {
    let mut p = Precipitation::new(PrecipitationKind::Snow, 10, 5);
    p.update_with(10, 5, 100, FallDraws { chance: 0, column: 2, speed: 0 });
    let mut r = GridRenderer::new(10, 5);
    p.render(&mut r);
    assert_eq!(r.cell(2, 0), Some(Cell { ch: '*', color: Color::White }));
}

#[test]
fn lightning_flash_holds_then_ends() {
    let mut l = Lightning::new();
    assert!(!l.is_flashing());
    l.update_with(false, 80, 0, 7);
    assert!(!l.is_flashing());
    l.update_with(true, 80, 999, 7);
    assert!(!l.is_flashing());
    l.update_with(true, 80, 0, 7);
    assert!(l.is_flashing());
    let mut r = GridRenderer::new(80, 24);
    l.render(&mut r);
    assert_eq!(r.cell(8, 1), Some(Cell { ch: '\\', color: Color::Yellow }));
    l.update_with(true, 80, 0, 7);
    l.update_with(true, 80, 0, 7);
    assert!(l.is_flashing());
    l.update_with(false, 80, 0, 7);
    assert!(!l.is_flashing());
}

#[test]
fn sun_rays_alternate() {
    let mut s = Sun::new();
    let mut r = GridRenderer::new(80, 24);
    s.render(&mut r, 80);
    assert_eq!(r.cell(66 + 2, 1), Some(Cell { ch: '\\', color: Color::Yellow }));
    assert_eq!(r.cell(66 + 3, 2), Some(Cell { ch: '(', color: Color::Yellow }));
    for _ in 0..15 {
        s.update();
    }
    let mut r2 = GridRenderer::new(80, 24);
    s.render(&mut r2, 80);
    assert_eq!(r2.cell(66 + 2, 1), Some(Cell { ch: '.', color: Color::Yellow }));
}

#[test]
fn storm_rain_falls_in_front_of_the_house() {
    let mut m = AnimationManager::new(80, 24, false);
    m.set_rain_intensity(100);
    let scene = WorldScene::new(80, 24);
    for _ in 0..200 {
        m.update(80, 24, storm(), (18, 3));
    }
    assert!(m.rain().len() > 0);
    let mut r = GridRenderer::new(80, 24);
    m.render_frame(&mut r, &scene, storm(), true);
    for k in 0..m.rain().len() {
        let p = m.rain().particle_at(k);
        assert_eq!(r.cell(p.x, (p.y / 100) as u16).map(|c| c.ch), Some('|'));
    }
}

#[test]
fn rain_stops_spawning_when_inactive() {
    let mut m = AnimationManager::new(80, 24, false);
    m.set_rain_intensity(100);
    for _ in 0..50 {
        m.update(80, 24, storm(), (18, 3));
    }
    let quiet = EffectActivation { thunderstorm: false, ..storm() };
    let mut last = m.rain().len();
    for _ in 0..100 {
        m.update(80, 24, quiet, (18, 3));
        assert!(m.rain().len() <= last);
        last = m.rain().len();
    }
    assert_eq!(m.rain().len(), 0);
    assert_eq!(m.snow().len(), 0);
}

#[test]
fn clouds_drift_right_and_wrap() {
    let mut c = Clouds::new();
    let mut r = GridRenderer::new(80, 24);
    c.render(&mut r, 80);
    assert_eq!(r.cell(8, 2), Some(Cell { ch: '.', color: Color::Grey }));
    assert_eq!(r.cell(40 + 3, 5), Some(Cell { ch: '.', color: Color::Grey }));
    for _ in 0..10 {
        c.update();
    }
    let mut r2 = GridRenderer::new(80, 24);
    c.render(&mut r2, 80);
    assert_eq!(r2.cell(9, 2), Some(Cell { ch: '.', color: Color::Grey }));
    let mut narrow = GridRenderer::new(30, 24);
    c.render(&mut narrow, 30);
    // the second bank starts at (40 + 1) % 30 = 11
    assert_eq!(narrow.cell(11 + 3, 5), Some(Cell { ch: '.', color: Color::Grey }));
}
