//! The gameplay screen: terrain bands plus the player sprite.
//!
//! Its update is a pure decision: a `Pause` input replaces the whole stack
//! with a fresh main menu for the same screen; anything else leaves the
//! screen resident.  It consumes all input either way.

use crate::graphics::Drawable;
use crate::input::{contains_input, Input};
use crate::main_menu::MainMenuView;
use crate::math::Vector2;
use crate::screens::AppView;
use crate::terrain::{Ground, River, Road};
use crate::view::ViewAction;
use vstd::prelude::*;

verus! {

#[derive(Clone, Copy, Debug, PartialEq, Eq, Structural)]
pub struct GameView {
    pub ground: Ground,
    pub road: Road,
    pub river: River,
    /// Kept so that a pause can rebuild the menu for the same screen.
    pub screen_size: Vector2,
}

impl GameView {
    pub open spec fn spec_new(screen_w: int, screen_h: int) -> GameView {
        GameView {
            ground: Ground,
            road: Road::spec_new(screen_w, screen_h),
            river: River::spec_new(screen_w, screen_h),
            screen_size: Vector2 { x: screen_w as i32, y: screen_h as i32 },
        }
    }

    pub fn new(screen_w: i32, screen_h: i32) -> (g: GameView)
        requires
            0 <= screen_w,
            0 <= screen_h,
        ensures
            g == GameView::spec_new(screen_w as int, screen_h as int),
    {
        GameView {
            ground: Ground::new(),
            road: Road::new(screen_w, screen_h),
            river: River::new(screen_w, screen_h),
            screen_size: Vector2::new(screen_w, screen_h),
        }
    }

    /// A stored screen size below zero (possible only for values built by
    /// hand) counts as zero when the menu is rebuilt.
    pub open spec fn spec_menu_width(self) -> int {
        if self.screen_size.x < 0 {
            0
        } else {
            self.screen_size.x as int
        }
    }

    pub open spec fn spec_menu_height(self) -> int {
        if self.screen_size.y < 0 {
            0
        } else {
            self.screen_size.y as int
        }
    }

    /// What one update computes: on `Pause`, replace the whole stack with
    /// a fresh main menu; otherwise stay resident.  All input is consumed.
    pub open spec fn spec_update(self, input: Seq<Input>) -> (
        GameView,
        Option<ViewAction<AppView>>,
        Seq<Input>,
    ) {
        if input.contains(Input::Pause) {
            (
                self,
                Some(
                    ViewAction::SetView(
                        AppView::MainMenu(
                            MainMenuView::spec_new(self.spec_menu_width(), self.spec_menu_height()),
                        ),
                    ),
                ),
                Seq::empty(),
            )
        } else {
            (self, None, Seq::empty())
        }
    }

    pub fn update(self, input: Vec<Input>) -> (r: (
        GameView,
        Option<ViewAction<AppView>>,
        Vec<Input>,
    ))
        ensures
            r.0 == self.spec_update(input@).0,
            r.1 == self.spec_update(input@).1,
            r.2@ == self.spec_update(input@).2,
    {
        if contains_input(&input, Input::Pause) {
            let width = if self.screen_size.x < 0 {
                0
            } else {
                self.screen_size.x
            };
            let height = if self.screen_size.y < 0 {
                0
            } else {
                self.screen_size.y
            };
            let menu = MainMenuView::new(width, height);
            (self, Some(ViewAction::SetView(AppView::MainMenu(menu))), Vec::new())
        } else {
            (self, None, Vec::new())
        }
    }

    /// The drawables, in paint order: ground, road, river, player sprite.
    pub open spec fn spec_view_data(self) -> Seq<Drawable> {
        seq![
            Drawable::Fill(crate::terrain::spec_ground_color()),
            Drawable::FilledRectangle(self.road.region, crate::terrain::spec_road_color()),
            Drawable::FilledRectangle(self.river.region, crate::terrain::spec_river_color()),
            Drawable::Sprite(crate::graphics::SpriteKind::Frog),
        ]
    }

    pub fn get_view_data(&self) -> (r: Vec<Drawable>)
        ensures
            r@ == self.spec_view_data(),
    {
        let mut drawables: Vec<Drawable> = Vec::new();
        drawables.push(self.ground.drawable());
        drawables.push(self.road.drawable());
        drawables.push(self.river.drawable());
        drawables.push(Drawable::Sprite(crate::graphics::SpriteKind::Frog));
        proof {
            assert(drawables@ =~= self.spec_view_data());
        }
        drawables
    }
}

} // verus!
