use weathr::render::{Cell, Color, GridRenderer};
use weathr::scene::decorations::{DecorationRenderConfig, Decorations};
use weathr::scene::ground::Ground;
use weathr::scene::house::House;
use weathr::scene::{SceneLayout, WorldScene, GROUND_HEIGHT};

#[test]
fn test_display_integration_house_rendering() {
    let house = House::default();
    let ascii = house.get_ascii();

    assert!(!ascii.is_empty(), "House should not be empty");

    assert!(ascii.len() >= 7, "House should have at least 7 lines");

    let house_str = ascii.join("\n");
    assert!(house_str.contains("___"), "House should contain roof/structure");
    assert!(house_str.contains("|"), "House should contain walls");
    assert!(house_str.contains("."), "House should contain roof details");
}

#[test]
fn test_display_integration_house_consistency() {
    let house1 = House::default();
    let house2 = House::default();

    assert_eq!(house1.get_ascii(), house2.get_ascii(), "House rendering should be consistent");
}

#[test]
fn house_dimensions() {
    let house = House;
    assert_eq!(house.width(), 64);
    assert_eq!(house.height(), 13);
    assert_eq!(house.door_offset(), 18);
    assert_eq!(house.get_ascii().len(), 13);
}

#[test]
fn house_render_colors_by_row_and_glyph() {
    let mut r = GridRenderer::new(70, 20);
    House.render(&mut r, 0, 0);
    // smoke puff on the first row
    assert_eq!(r.cell(10, 0), Some(Cell { ch: '(', color: Color::DarkGrey }));
    // roof
    assert_eq!(r.cell(3, 7), Some(Cell { ch: '~', color: Color::DarkRed }));
    // a window
    assert_eq!(r.cell(8, 8), Some(Cell { ch: '[', color: Color::Cyan }));
    // grass strip
    assert_eq!(r.cell(1, 12), Some(Cell { ch: '^', color: Color::Green }));
    // below the art nothing is drawn
    assert_eq!(r.cell(1, 13), Some(Cell { ch: ' ', color: Color::Reset }));
}

#[test]
fn ground_texture_is_deterministic() {
    for (x, y) in [(0u32, 0u32), (1, 0), (36, 0), (6, 2), (5, 3), (40, 7)] {
        assert_eq!(Ground::cell_at(x, y, 200), Ground::cell_at(x, y, 200));
    }
}

#[test]
fn ground_texture_values() {
    assert_eq!(Ground::cell_at(0, 0, 200), Cell { ch: '^', color: Color::Green });
    assert_eq!(Ground::cell_at(1, 0, 200), Cell { ch: ',', color: Color::DarkGreen });
    assert_eq!(Ground::cell_at(36, 0, 200), Cell { ch: '*', color: Color::Magenta });
    let soil = Color::Rgb { r: 101, g: 67, b: 33 };
    assert_eq!(Ground::cell_at(6, 2, 200), Cell { ch: '~', color: soil });
    assert_eq!(Ground::cell_at(5, 3, 200), Cell { ch: '.', color: soil });
    assert_eq!(Ground::cell_at(11, 2, 200), Cell { ch: ' ', color: soil });
}

#[test]
fn ground_path_widens_toward_viewer() {
    let path = Cell { ch: '=', color: Color::Rgb { r: 180, g: 160, b: 120 } };
    // four columns on the top row, one more on each row below
    for y in 0..8u32 {
        let on: Vec<u32> = (0..60).filter(|&x| Ground::cell_at(x, y, 26) == path).collect();
        assert_eq!(on.len() as u32, 4 + y);
        assert_eq!(on[0], 26 - (4 + y) / 2);
    }
    assert_eq!(Ground::cell_at(24, 0, 26), path);
    assert_eq!(Ground::cell_at(27, 0, 26), path);
    assert_ne!(Ground::cell_at(23, 0, 26), path);
    assert_ne!(Ground::cell_at(28, 0, 26), path);
    assert_eq!(Ground::cell_at(21, 7, 26), path);
    assert_eq!(Ground::cell_at(31, 7, 26), path);
}

#[test]
fn ground_render_fills_rows() {
    let mut r = GridRenderer::new(40, 10);
    Ground.render(&mut r, 40, 8, 2, 26);
    assert_eq!(r.cell(0, 2), Some(Ground::cell_at(0, 0, 26)));
    assert_eq!(r.cell(36, 2), Some(Ground::cell_at(36, 0, 26)));
    assert_eq!(r.cell(5, 5), Some(Ground::cell_at(5, 3, 26)));
    assert_eq!(r.cell(0, 1), Some(Cell { ch: ' ', color: Color::Reset }));
}

#[test]
fn scene_layout_for_80_by_24() {
    let scene = WorldScene::new(80, 24);
    let l = scene.layout();
    assert_eq!(
        l,
        SceneLayout { horizon_y: 16, house_x: 8, house_y: 3, path_center: 26 }
    );
    let center = l.house_x + House.width() / 2;
    assert_eq!(center, 40);
    assert_eq!(GROUND_HEIGHT, 8);
}

#[test]
fn scene_layout_clamps_on_tiny_screens() {
    let mut scene = WorldScene::new(80, 24);
    scene.update_size(10, 5);
    let l = scene.layout();
    assert_eq!(l, SceneLayout { horizon_y: 0, house_x: 0, house_y: 0, path_center: 18 });
}

#[test]
fn scene_render_draws_house_centered() {
    let mut r = GridRenderer::new(80, 24);
    let scene = WorldScene::new(80, 24);
    scene.render(&mut r, true);
    // grass row of the house art sits on the row above the horizon
    assert_eq!(r.cell(9, 15), Some(Cell { ch: '^', color: Color::Green }));
    // the door gap of the grass strip
    assert_eq!(r.cell(8 + 17, 15), Some(Cell { ch: '=', color: Color::DarkGrey }));
    // ground starts at the horizon
    assert_eq!(r.cell(0, 16), Some(Ground::cell_at(0, 0, 26)));
}

#[test]
fn decorations_switch_palette_by_day() {
    let config = DecorationRenderConfig {
        horizon_y: 20,
        house_x: 40,
        house_width: 64,
        path_center: 58,
        width: 120,
        is_day: true,
    };
    let mut day = GridRenderer::new(120, 30);
    Decorations::new().render(&mut day, &config);
    // tree at column 20, five rows above the horizon
    assert_eq!(day.cell(26, 15), Some(Cell { ch: '#', color: Color::DarkGreen }));
    // fence right of the house
    assert_eq!(day.cell(106, 18), Some(Cell { ch: '|', color: Color::White }));
    let night_config = DecorationRenderConfig { is_day: false, ..config };
    let mut night = GridRenderer::new(120, 30);
    Decorations::new().render(&mut night, &night_config);
    assert_eq!(night.cell(26, 15), Some(Cell { ch: '#', color: Color::Rgb { r: 0, g: 50, b: 0 } }));
    assert_eq!(night.cell(106, 18), Some(Cell { ch: '|', color: Color::Grey }));
}

#[test]
fn decorations_skip_tree_at_left_edge() {
    let config = DecorationRenderConfig {
        horizon_y: 20,
        house_x: 10,
        house_width: 64,
        path_center: 28,
        width: 120,
        is_day: true,
    };
    let mut r = GridRenderer::new(120, 30);
    Decorations::new().render(&mut r, &config);
    for x in 0..16 {
        assert_ne!(r.cell(x, 15).map(|c| c.ch), Some('#'));
    }
}
