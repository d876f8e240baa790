//! The static scene: ground, house and props, laid out from the screen
//! size.
pub mod decorations;
pub mod ground;
pub mod house;

use crate::render::{apply_puts, lemma_apply_puts_concat, GridRenderer, Put};
use decorations::{decoration_puts, DecorationRenderConfig, Decorations};
use ground::{ground_puts, Ground};
use house::{house_puts, House, CHIMNEY_X_OFFSET, DOOR_OFFSET, HOUSE_HEIGHT, HOUSE_WIDTH};
use vstd::prelude::*;

verus! {

/// Rows of ground at the bottom of the screen.
pub const GROUND_HEIGHT: u16 = 8;

/// Geometry derived from the screen size.
#[derive(Clone, Copy, PartialEq, Eq, Structural, Debug)]
pub struct SceneLayout {
    /// First ground row.
    pub horizon_y: u16,
    /// Left column of the house.
    pub house_x: u16,
    /// Top row of the house.
    pub house_y: u16,
    /// Column where the garden path is centred: the house's door.
    pub path_center: u16,
}

pub open spec fn sat_sub(a: int, b: int) -> int {
    if a >= b {
        a - b
    } else {
        0
    }
}

/// The layout for a `width` by `height` screen: the ground fills the last
/// rows, the house is centred and stands on the ground, and the path starts
/// at its door. Sizes too small for the art clamp at zero.
pub open spec fn layout_of(width: u16, height: u16) -> SceneLayout {
    let horizon_y = sat_sub(height as int, GROUND_HEIGHT as int);
    let house_x = sat_sub((width / 2) as int, (HOUSE_WIDTH / 2) as int);
    SceneLayout {
        horizon_y: horizon_y as u16,
        house_x: house_x as u16,
        house_y: sat_sub(horizon_y, HOUSE_HEIGHT as int) as u16,
        path_center: (house_x + DOOR_OFFSET) as u16,
    }
}

/// On a screen at least as wide as the house, the house's middle column is
/// the screen's middle column.
pub proof fn lemma_house_centered(width: u16, height: u16)
    requires
        width >= HOUSE_WIDTH,
    ensures
        layout_of(width, height).house_x + HOUSE_WIDTH / 2 == width / 2,
{
}

/// The cell smoke rises from in a layout: the chimney's column at the top
/// of the house.
pub open spec fn chimney_of(l: SceneLayout) -> (u16, u16) {
    ((l.house_x + CHIMNEY_X_OFFSET) as u16, l.house_y)
}

pub open spec fn decoration_config(width: u16, l: SceneLayout, is_day: bool) -> DecorationRenderConfig {
    DecorationRenderConfig {
        horizon_y: l.horizon_y,
        house_x: l.house_x,
        house_width: HOUSE_WIDTH,
        path_center: l.path_center,
        width,
        is_day,
    }
}

/// The writes of one scene pass: ground first, then the house over it,
/// then the props.
pub open spec fn scene_puts(width: u16, height: u16, is_day: bool) -> Seq<Put> {
    let l = layout_of(width, height);
    ground_puts(width as int, GROUND_HEIGHT as int, l.horizon_y as int, l.path_center as int)
        + house_puts(l.house_x as int, l.house_y as int, HOUSE_HEIGHT as int) + decoration_puts(
        decoration_config(width, l, is_day),
    )
}

pub struct WorldScene {
    house: House,
    ground: Ground,
    decorations: Decorations,
    width: u16,
    height: u16,
}

impl WorldScene {
    pub closed spec fn cols(&self) -> u16 {
        self.width
    }

    pub closed spec fn rows(&self) -> u16 {
        self.height
    }

    pub fn new(width: u16, height: u16) -> (r: Self)
        ensures
            r.cols() == width,
            r.rows() == height,
    {
        WorldScene {
            house: House,
            ground: Ground,
            decorations: Decorations::new(),
            width,
            height,
        }
    }

    pub fn update_size(&mut self, width: u16, height: u16)
        ensures
            final(self).cols() == width,
            final(self).rows() == height,
    {
        self.width = width;
        self.height = height;
    }

    pub fn size(&self) -> (r: (u16, u16))
        ensures
            r.0 == self.cols(),
            r.1 == self.rows(),
    {
        (self.width, self.height)
    }

    /// The cell smoke rises from: the chimney at the top of the house.
    pub fn chimney(&self) -> (r: (u16, u16))
        ensures
            r == chimney_of(layout_of(self.cols(), self.rows())),
    {
        let l = self.layout();
        (l.house_x + CHIMNEY_X_OFFSET, l.house_y)
    }

    /// Where the house, ground and path stand at the current size.
    pub fn layout(&self) -> (r: SceneLayout)
        ensures
            r == layout_of(self.cols(), self.rows()),
    {
        let horizon_y = self.height.saturating_sub(GROUND_HEIGHT);
        let house_width = self.house.width();
        let house_height = self.house.height();
        let house_x = (self.width / 2).saturating_sub(house_width / 2);
        let house_y = horizon_y.saturating_sub(house_height);
        let path_center = house_x + self.house.door_offset();
        SceneLayout { horizon_y, house_x, house_y, path_center }
    }

    /// Draws the ground, the house and the props, the props in their day or
    /// night palette.
    pub fn render(&self, renderer: &mut GridRenderer, is_day: bool)
        requires
            old(renderer).wf(),
        ensures
            final(renderer).wf(),
            final(renderer).cols() == old(renderer).cols(),
            final(renderer).rows() == old(renderer).rows(),
            final(renderer).shown() == old(renderer).shown(),
            final(renderer).full_pending() == old(renderer).full_pending(),
            final(renderer).cells() == old(renderer).drawn(
                scene_puts(self.cols(), self.rows(), is_day),
            ),
    {
        let ghost g0 = renderer.cells();
        let ghost w = renderer.cols();
        let ghost h = renderer.rows();
        let l = self.layout();
        self.ground.render(renderer, self.width, GROUND_HEIGHT, l.horizon_y, l.path_center);
        self.house.render(renderer, l.house_x, l.house_y);
        let config = DecorationRenderConfig {
            horizon_y: l.horizon_y,
            house_x: l.house_x,
            house_width: self.house.width(),
            path_center: l.path_center,
            width: self.width,
            is_day,
        };
        self.decorations.render(renderer, &config);
        proof {
            let a = ground_puts(
                self.width as int,
                GROUND_HEIGHT as int,
                l.horizon_y as int,
                l.path_center as int,
            );
            let b = house_puts(l.house_x as int, l.house_y as int, HOUSE_HEIGHT as int);
            let c = decoration_puts(config);
            assert(config == decoration_config(self.width, l, is_day));
            lemma_apply_puts_concat(g0, w, h, a, b);
            lemma_apply_puts_concat(g0, w, h, a + b, c);
        }
    }
}

} // verus!
