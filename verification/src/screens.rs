//! The closed set of concrete screens the application stacks.
//!
//! The stack holds screens uniformly through this enum; each variant
//! forwards the two screen operations to its own state.

use crate::game::GameView;
use crate::graphics::Drawable;
use crate::input::Input;
use crate::main_menu::MainMenuView;
use crate::view::{
    lemma_advance_nonempty, spec_advance, spec_all_removed, Screen, ViewAction, ViewData,
};
use vstd::prelude::*;

verus! {

#[derive(Clone, Debug, PartialEq)]
pub enum AppView {
    MainMenu(MainMenuView),
    Game(GameView),
}

impl Screen for AppView {
    open spec fn spec_update(self, input: Seq<Input>, elapsed_ns: i64) -> (
        Self,
        Option<ViewAction<Self>>,
        Seq<Input>,
    ) {
        match self {
            AppView::MainMenu(m) => {
                let r = m.spec_update(input);
                (AppView::MainMenu(r.0), r.1, r.2)
            },
            AppView::Game(g) => {
                let r = g.spec_update(input);
                (AppView::Game(r.0), r.1, r.2)
            },
        }
    }

    open spec fn spec_view_data(&self) -> Seq<Drawable> {
        match *self {
            AppView::MainMenu(m) => m.spec_view_data(),
            AppView::Game(g) => g.spec_view_data(),
        }
    }

    fn update(self, input: Vec<Input>, elapsed_ns: i64) -> (r: (
        Self,
        Option<ViewAction<Self>>,
        Vec<Input>,
    )) {
        match self {
            AppView::MainMenu(m) => {
                let (menu, action, remaining) = m.update(input);
                (AppView::MainMenu(menu), action, remaining)
            },
            AppView::Game(g) => {
                let (game, action, remaining) = g.update(input);
                (AppView::Game(game), action, remaining)
            },
        }
    }

    fn get_view_data(&self) -> (r: ViewData) {
        match self {
            AppView::MainMenu(m) => ViewData { graphic_objects: m.get_view_data() },
            AppView::Game(g) => ViewData { graphic_objects: g.get_view_data() },
        }
    }
}

/// Neither concrete screen ever asks to remove itself, so a pass over a
/// non-empty stack of them leaves a non-empty stack unless termination was
/// signaled: the running application never shows an empty stack.
pub proof fn lemma_app_stack_stays_nonempty(
    views: Seq<AppView>,
    input: Seq<Input>,
    elapsed_ns: i64,
)
    requires
        views.len() > 0,
        !spec_advance(views, input, elapsed_ns).exit,
    ensures
        spec_advance(views, input, elapsed_ns).stack.len() > 0,
{
    assert(!spec_all_removed(views, input, elapsed_ns)) by {
        match views[0] {
            AppView::MainMenu(m) => {},
            AppView::Game(g) => {},
        }
    }
    lemma_advance_nonempty(views, input, elapsed_ns);
}

} // verus!
