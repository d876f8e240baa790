use weathr::app::{App, InputEvent, LoopAction};
use weathr::render::{Cell, Color, GridRenderer};
use weathr::weather::{WeatherCondition, WeatherData, WeatherLocation};

fn location() -> WeatherLocation {
    WeatherLocation { latitude_hundredths: 5252, longitude_hundredths: 1341 }
}

#[test]
fn frame_shows_status_line_over_scene() {
    let clear = WeatherData { condition: WeatherCondition::Clear, temperature_tenths: 200, is_day: true };
    let mut app = App::new(location(), Some(clear), false, 100, 30);
    let mut r = GridRenderer::new(100, 30);
    app.render_frame(&mut r, false);
    assert_eq!(r.cell(2, 1), Some(Cell { ch: 'W', color: Color::Cyan }));
    assert_eq!(r.cell(11, 1), Some(Cell { ch: 'C', color: Color::Cyan }));
    let mut hidden = GridRenderer::new(100, 30);
    app.render_frame(&mut hidden, true);
    assert_ne!(hidden.cell(2, 1), Some(Cell { ch: 'W', color: Color::Cyan }));
}

#[test]
fn weather_error_reaches_status_line() {
    let mut app = App::new(location(), None, false, 100, 30);
    app.receive_weather(Err("timeout".to_string()));
    let mut r = GridRenderer::new(100, 30);
    app.render_frame(&mut r, false);
    assert_eq!(r.cell(2, 1), Some(Cell { ch: 'E', color: Color::Cyan }));
}

#[test]
fn keys_quit_and_resize_repaints() {
    let mut app = App::new(location(), None, false, 40, 20);
    let mut r = GridRenderer::new(40, 20);
    r.flush();
    assert_eq!(app.handle_event(&mut r, InputEvent::Other), LoopAction::Continue);
    assert_eq!(app.handle_event(&mut r, InputEvent::Key { code: 'x', ctrl: false }), LoopAction::Continue);
    assert_eq!(app.handle_event(&mut r, InputEvent::Key { code: 'c', ctrl: false }), LoopAction::Continue);
    assert_eq!(
        app.handle_event(&mut r, InputEvent::Resize { width: 30, height: 10 }),
        LoopAction::Continue
    );
    assert_eq!(r.get_size(), (30, 10));
    assert_eq!(r.flush().iter().filter(|op| matches!(op, weathr::render::DrawOp::Print(_))).count(), 300);
    assert_eq!(app.handle_event(&mut r, InputEvent::Key { code: 'q', ctrl: false }), LoopAction::Quit);
    assert_eq!(app.handle_event(&mut r, InputEvent::Key { code: 'Q', ctrl: false }), LoopAction::Quit);
    assert_eq!(app.handle_event(&mut r, InputEvent::Key { code: 'c', ctrl: true }), LoopAction::Quit);
}

#[test]
fn failed_fetch_keeps_the_last_weather() {
    let rain = WeatherData { condition: WeatherCondition::Rain, temperature_tenths: 120, is_day: true };
    let mut app = App::new(location(), Some(rain), false, 100, 30);
    let mut r = GridRenderer::new(100, 30);
    app.render_frame(&mut r, false);
    app.receive_weather(Err("timeout".to_string()));
    let mut r2 = GridRenderer::new(100, 30);
    app.render_frame(&mut r2, false);
    assert_eq!(r2.cell(2, 1), Some(Cell { ch: 'E', color: Color::Cyan }));
    // the house is drawn the same way, so the weather behind it stays
    assert_eq!(r.cell(20, 20), r2.cell(20, 20));
}

#[test]
fn same_frame_twice_flushes_nothing() {
    let clear = WeatherData { condition: WeatherCondition::Clear, temperature_tenths: 200, is_day: true };
    let mut app = App::new(location(), Some(clear), false, 100, 30);
    let mut r = GridRenderer::new(100, 30);
    app.render_frame(&mut r, false);
    assert!(!r.flush().is_empty());
    app.render_frame(&mut r, false);
    assert!(r.flush().is_empty());
}
