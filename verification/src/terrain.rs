//! The playfield terrain bands: grass backdrop, road and river.
//!
//! The playfield is a 13-row grid; the road covers rows 7 to 11 and the
//! river rows 1 to 5, each a fraction of the screen height.

use crate::graphics::{Color, Drawable};
use crate::math::{Rectangle, Vector2};
use vstd::prelude::*;

verus! {

pub open spec fn spec_ground_color() -> Color {
    Color { r: 64, g: 155, b: 0 }
}

pub open spec fn spec_road_color() -> Color {
    Color { r: 80, g: 80, b: 80 }
}

pub open spec fn spec_river_color() -> Color {
    Color { r: 0, g: 0, b: 128 }
}

/// The grass background, drawn over the whole screen.
#[derive(Clone, Copy, Debug, PartialEq, Eq, Structural)]
pub struct Ground;

impl Ground {
    pub fn new() -> Ground {
        Ground
    }

    pub fn drawable(&self) -> (d: Drawable)
        ensures
            d == Drawable::Fill(spec_ground_color()),
    {
        Drawable::Fill(Color { r: 64, g: 155, b: 0 })
    }
}

/// The road band: full screen width, rows 7 to 11 of the 13-row grid.
#[derive(Clone, Copy, Debug, PartialEq, Eq, Structural)]
pub struct Road {
    pub region: Rectangle,
}

impl Road {
    pub open spec fn spec_new(screen_w: int, screen_h: int) -> Road {
        Road {
            region: Rectangle::spec_new(
                Vector2 { x: 0, y: (screen_h * 7 / 13) as i32 },
                Vector2 { x: screen_w as i32, y: (screen_h * 5 / 13) as i32 },
            ),
        }
    }

    pub fn new(screen_w: i32, screen_h: i32) -> (r: Road)
        requires
            0 <= screen_w,
            0 <= screen_h,
        ensures
            r == Road::spec_new(screen_w as int, screen_h as int),
    {
        let h = screen_h as i64;
        let region = Rectangle::new(
            Vector2::new(0, (h * 7 / 13) as i32),
            Vector2::new(screen_w, (h * 5 / 13) as i32),
        );
        Road { region: region.unwrap() }
    }

    pub fn drawable(&self) -> (d: Drawable)
        ensures
            d == Drawable::FilledRectangle(self.region, spec_road_color()),
    {
        Drawable::FilledRectangle(self.region, Color { r: 80, g: 80, b: 80 })
    }
}

/// The river band: full screen width, rows 1 to 5 of the 13-row grid.
#[derive(Clone, Copy, Debug, PartialEq, Eq, Structural)]
pub struct River {
    pub region: Rectangle,
}

impl River {
    pub open spec fn spec_new(screen_w: int, screen_h: int) -> River {
        River {
            region: Rectangle::spec_new(
                Vector2 { x: 0, y: (screen_h / 13) as i32 },
                Vector2 { x: screen_w as i32, y: (screen_h * 5 / 13) as i32 },
            ),
        }
    }

    pub fn new(screen_w: i32, screen_h: i32) -> (r: River)
        requires
            0 <= screen_w,
            0 <= screen_h,
        ensures
            r == River::spec_new(screen_w as int, screen_h as int),
    {
        let h = screen_h as i64;
        let region = Rectangle::new(
            Vector2::new(0, (h / 13) as i32),
            Vector2::new(screen_w, (h * 5 / 13) as i32),
        );
        River { region: region.unwrap() }
    }

    pub fn drawable(&self) -> (d: Drawable)
        ensures
            d == Drawable::FilledRectangle(self.region, spec_river_color()),
    {
        Drawable::FilledRectangle(self.region, Color { r: 0, g: 0, b: 128 })
    }
}

} // verus!
