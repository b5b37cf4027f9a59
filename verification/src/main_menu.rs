//! The main menu screen: four buttons laid out from the screen size, a
//! keyboard/pointer-driven highlight, and a child-view mode in which only
//! the backdrop is shown until `Pause` returns to the menu.

use crate::graphics::{Color, Drawable, SpriteKind};
use crate::input::{contains_input, menu, regions_of, spec_menu, Button, Input};
use crate::math::{Rectangle, Vector2};
use crate::screens::AppView;
use crate::view::ViewAction;
use vstd::prelude::*;

verus! {

pub open spec fn spec_backdrop_color() -> Color {
    Color { r: 64, g: 155, b: 0 }
}

pub open spec fn spec_menu_normal_color() -> Color {
    Color { r: 75, g: 185, b: 30 }
}

pub open spec fn spec_menu_highlight_color() -> Color {
    Color { r: 100, g: 210, b: 50 }
}

/// The color a button is filled with, by hover state.
pub open spec fn spec_button_color(hover: bool) -> Color {
    if hover {
        spec_menu_highlight_color()
    } else {
        spec_menu_normal_color()
    }
}

/// The menu's full-screen background.
#[derive(Clone, Copy, Debug, PartialEq, Eq, Structural)]
pub struct Backdrop;

impl Backdrop {
    pub fn new() -> Backdrop {
        Backdrop
    }

    pub fn drawable(&self) -> (d: Drawable)
        ensures
            d == Drawable::Fill(spec_backdrop_color()),
    {
        Drawable::Fill(Color { r: 64, g: 155, b: 0 })
    }
}

/// One clickable menu button: its region, its label sprite, and whether
/// the highlight rests on it.
#[derive(Clone, Copy, Debug, PartialEq, Eq, Structural)]
pub struct MenuButton {
    pub label: SpriteKind,
    pub region: Rectangle,
    pub hover: bool,
}

impl MenuButton {
    pub fn new(label: SpriteKind, region: Rectangle) -> (b: MenuButton)
        ensures
            b == (MenuButton { label, region, hover: false }),
    {
        MenuButton { label, region, hover: false }
    }

    /// The button's drawables: its filled region, then its label.
    pub open spec fn spec_drawables(self) -> Seq<Drawable> {
        seq![
            Drawable::FilledRectangle(self.region, spec_button_color(self.hover)),
            Drawable::Sprite(self.label),
        ]
    }
}

impl Button for MenuButton {
    open spec fn spec_region(&self) -> Rectangle {
        self.region
    }

    fn get_region(&self) -> (r: Rectangle) {
        self.region
    }
}

/// Button `index`'s region for a screen of the given size: buttons are
/// half the screen wide, a tenth of the screen tall, horizontally
/// centered, stacked from 47% of the screen height with a small pad.
pub open spec fn spec_button_region(screen_w: int, screen_h: int, index: int) -> Rectangle {
    let size_x = screen_w / 2;
    let size_y = screen_h / 10;
    let pad = screen_h * 22 / 1000;
    Rectangle::spec_new(
        Vector2 {
            x: ((screen_w - size_x) / 2) as i32,
            y: (screen_h * 47 / 100 + index * (size_y + pad)) as i32,
        },
        Vector2 { x: size_x as i32, y: size_y as i32 },
    )
}

/// Computes one button region; the layout arithmetic is done in wide
/// integers and the results fit the screen's own coordinate range.
fn button_region(screen_w: i32, screen_h: i32, index: i32) -> (r: Rectangle)
    requires
        0 <= screen_w,
        0 <= screen_h,
        0 <= index <= 3,
    ensures
        r == spec_button_region(screen_w as int, screen_h as int, index as int),
{
    let w = screen_w as i64;
    let h = screen_h as i64;
    let size_x = w / 2;
    let size_y = h / 10;
    let pad = h * 22 / 1000;
    let x = (w - size_x) / 2;
    proof {
        assert(0 <= (index as i64) * (size_y + pad) <= 3 * (size_y + pad)) by (nonlinear_arith)
            requires
                0 <= (index as i64) <= 3,
                size_y + pad >= 0,
        ;
    }
    let y = h * 47 / 100 + (index as i64) * (size_y + pad);
    let region = Rectangle::new(
        Vector2::new(x as i32, y as i32),
        Vector2::new(size_x as i32, size_y as i32),
    );
    region.unwrap()
}

/// The number of menu buttons.
pub open spec fn spec_button_count() -> usize {
    4usize
}

#[derive(Clone, Copy, Debug, PartialEq, Eq)]
pub struct MainMenuView {
    pub backdrop: Backdrop,
    pub play_button: MenuButton,
    pub options_button: MenuButton,
    pub scores_button: MenuButton,
    pub quit_button: MenuButton,
    pub highlighted: Option<usize>,
    pub in_child_view: bool,
}

impl MainMenuView {
    /// A fresh menu for a screen of the given size: no highlight, not in a
    /// child view.
    pub open spec fn spec_new(screen_w: int, screen_h: int) -> MainMenuView {
        MainMenuView {
            backdrop: Backdrop,
            play_button: MenuButton {
                label: SpriteKind::PlayLabel,
                region: spec_button_region(screen_w, screen_h, 0),
                hover: false,
            },
            options_button: MenuButton {
                label: SpriteKind::OptionsLabel,
                region: spec_button_region(screen_w, screen_h, 1),
                hover: false,
            },
            scores_button: MenuButton {
                label: SpriteKind::ScoresLabel,
                region: spec_button_region(screen_w, screen_h, 2),
                hover: false,
            },
            quit_button: MenuButton {
                label: SpriteKind::QuitLabel,
                region: spec_button_region(screen_w, screen_h, 3),
                hover: false,
            },
            highlighted: None,
            in_child_view: false,
        }
    }

    pub fn new(screen_w: i32, screen_h: i32) -> (m: MainMenuView)
        requires
            0 <= screen_w,
            0 <= screen_h,
        ensures
            m == MainMenuView::spec_new(screen_w as int, screen_h as int),
    {
        MainMenuView {
            backdrop: Backdrop::new(),
            play_button: MenuButton::new(
                SpriteKind::PlayLabel,
                button_region(screen_w, screen_h, 0),
            ),
            options_button: MenuButton::new(
                SpriteKind::OptionsLabel,
                button_region(screen_w, screen_h, 1),
            ),
            scores_button: MenuButton::new(
                SpriteKind::ScoresLabel,
                button_region(screen_w, screen_h, 2),
            ),
            quit_button: MenuButton::new(
                SpriteKind::QuitLabel,
                button_region(screen_w, screen_h, 3),
            ),
            highlighted: None,
            in_child_view: false,
        }
    }

    /// The button regions, in order.
    pub open spec fn spec_regions(self) -> Seq<Rectangle> {
        seq![
            self.play_button.region,
            self.options_button.region,
            self.scores_button.region,
            self.quit_button.region,
        ]
    }

    /// A stored highlight out of the buttons' range (possible only for
    /// values built by hand) counts as no highlight.
    pub open spec fn spec_sane_highlight(self) -> Option<usize> {
        match self.highlighted {
            Some(h) => if h < spec_button_count() {
                Some(h)
            } else {
                None
            },
            None => None,
        }
    }

    /// The menu after the navigation result is applied: the highlight is
    /// stored and each button's hover flag tracks it.
    pub open spec fn spec_with_highlight(self, h: Option<usize>) -> MainMenuView {
        MainMenuView {
            highlighted: h,
            play_button: MenuButton { hover: h == Some(0usize), ..self.play_button },
            options_button: MenuButton { hover: h == Some(1usize), ..self.options_button },
            scores_button: MenuButton { hover: h == Some(2usize), ..self.scores_button },
            quit_button: MenuButton { hover: h == Some(3usize), ..self.quit_button },
            ..self
        }
    }

    /// What one update computes.  In a child view, anything but `Pause` is
    /// swallowed; `Pause` returns to the menu and the same inputs then
    /// drive it.  Navigation moves highlight and selection; selecting the
    /// second or third button opens a child view, selecting the last
    /// requests termination.  All input is consumed.
    pub open spec fn spec_update(self, input: Seq<Input>) -> (
        MainMenuView,
        Option<ViewAction<AppView>>,
        Seq<Input>,
    ) {
        if self.in_child_view && !input.contains(Input::Pause) {
            (self, None, Seq::empty())
        } else {
            let menu_view = MainMenuView { in_child_view: false, ..self };
            let nav = spec_menu(menu_view.spec_regions(), menu_view.spec_sane_highlight(), input);
            let updated = menu_view.spec_with_highlight(nav.0);
            match nav.1 {
                Some(index) => if index == 0 {
                    (updated, None, Seq::empty())
                } else if index == 1 || index == 2 {
                    (MainMenuView { in_child_view: true, ..updated }, None, Seq::empty())
                } else {
                    (updated, Some(ViewAction::ExitGame), Seq::empty())
                },
                None => (updated, None, Seq::empty()),
            }
        }
    }

    pub fn update(self, input: Vec<Input>) -> (r: (
        MainMenuView,
        Option<ViewAction<AppView>>,
        Vec<Input>,
    ))
        ensures
            r.0 == self.spec_update(input@).0,
            r.1 == self.spec_update(input@).1,
            r.2@ == self.spec_update(input@).2,
    {
        let pause = contains_input(&input, Input::Pause);
        if self.in_child_view && !pause {
            return (self, None, Vec::new());
        }

        let mut updated = self;
        updated.in_child_view = false;

        let sane_highlight = match updated.highlighted {
            Some(h) => if h < 4 {
                Some(h)
            } else {
                None
            },
            None => None,
        };

        let (new_highlight, selected) = {
            let mut buttons: Vec<&MenuButton> = Vec::new();
            buttons.push(&updated.play_button);
            buttons.push(&updated.options_button);
            buttons.push(&updated.scores_button);
            buttons.push(&updated.quit_button);
            proof {
                assert(regions_of(buttons@) =~= updated.spec_regions());
            }
            menu(&buttons, sane_highlight, &input)
        };

        updated.highlighted = new_highlight;
        updated.play_button.hover = match new_highlight {
            Some(i) => i == 0,
            None => false,
        };
        updated.options_button.hover = match new_highlight {
            Some(i) => i == 1,
            None => false,
        };
        updated.scores_button.hover = match new_highlight {
            Some(i) => i == 2,
            None => false,
        };
        updated.quit_button.hover = match new_highlight {
            Some(i) => i == 3,
            None => false,
        };

        let action: Option<ViewAction<AppView>> = match selected {
            Some(index) => {
                if index == 0 {
                    None
                } else if index == 1 || index == 2 {
                    updated.in_child_view = true;
                    None
                } else {
                    Some(ViewAction::ExitGame)
                }
            },
            None => None,
        };

        (updated, action, Vec::new())
    }

    /// The drawables, in paint order: the backdrop always; the title, the
    /// four buttons and the info tags only when no child view is open.
    pub open spec fn spec_view_data(self) -> Seq<Drawable> {
        if self.in_child_view {
            seq![Drawable::Fill(spec_backdrop_color())]
        } else {
            seq![Drawable::Fill(spec_backdrop_color()), Drawable::Sprite(SpriteKind::Title)]
                + self.play_button.spec_drawables() + self.options_button.spec_drawables()
                + self.scores_button.spec_drawables() + self.quit_button.spec_drawables()
                + seq![Drawable::Sprite(SpriteKind::Version), Drawable::Sprite(SpriteKind::Author)]
        }
    }

    pub fn get_view_data(&self) -> (r: Vec<Drawable>)
        ensures
            r@ == self.spec_view_data(),
    {
        let mut drawables: Vec<Drawable> = Vec::new();
        drawables.push(self.backdrop.drawable());
        if !self.in_child_view {
            drawables.push(Drawable::Sprite(SpriteKind::Title));
            drawables.push(
                Drawable::FilledRectangle(
                    self.play_button.region,
                    button_color(self.play_button.hover),
                ),
            );
            drawables.push(Drawable::Sprite(self.play_button.label));
            drawables.push(
                Drawable::FilledRectangle(
                    self.options_button.region,
                    button_color(self.options_button.hover),
                ),
            );
            drawables.push(Drawable::Sprite(self.options_button.label));
            drawables.push(
                Drawable::FilledRectangle(
                    self.scores_button.region,
                    button_color(self.scores_button.hover),
                ),
            );
            drawables.push(Drawable::Sprite(self.scores_button.label));
            drawables.push(
                Drawable::FilledRectangle(
                    self.quit_button.region,
                    button_color(self.quit_button.hover),
                ),
            );
            drawables.push(Drawable::Sprite(self.quit_button.label));
            drawables.push(Drawable::Sprite(SpriteKind::Version));
            drawables.push(Drawable::Sprite(SpriteKind::Author));
        }
        proof {
            assert(drawables@ =~= self.spec_view_data());
        }
        drawables
    }
}

/// The fill color for a button in the given hover state.
fn button_color(hover: bool) -> (c: Color)
    ensures
        c == spec_button_color(hover),
{
    if hover {
        Color { r: 100, g: 210, b: 50 }
    } else {
        Color { r: 75, g: 185, b: 30 }
    }
}

} // verus!
