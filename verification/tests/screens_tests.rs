use reaping::game::GameView;
use reaping::graphics::{Color, Drawable, SpriteKind};
use reaping::input::Input;
use reaping::main_menu::MainMenuView;
use reaping::math::Vector2;
use reaping::screens::AppView;
use reaping::view::{advance, ViewAction};

const W: i32 = 1366;
const H: i32 = 768;

#[test]
fn menu_buttons_are_laid_out_from_the_screen_size() {
    let m = MainMenuView::new(W, H);
    // Buttons are 683x76, centered at x = 341, stacked every 92 pixels
    // from y = 360 (47% of 768, pad 16).
    for (index, button) in [
        &m.play_button,
        &m.options_button,
        &m.scores_button,
        &m.quit_button,
    ]
    .iter()
    .enumerate()
    {
        assert_eq!(button.region.position, Vector2::new(341, 360 + 92 * index as i32));
        assert_eq!(button.region.get_size(), Vector2::new(683, 76));
        assert!(!button.hover);
    }
    assert_eq!(m.highlighted, None);
    assert!(!m.in_child_view);
}

#[test]
fn down_highlights_the_first_button_and_sets_hover() {
    let m = MainMenuView::new(W, H);
    let (m, action, remaining) = m.update(vec![Input::Down]);
    assert_eq!(m.highlighted, Some(0));
    assert!(m.play_button.hover);
    assert!(!m.options_button.hover);
    assert!(action.is_none());
    assert!(remaining.is_empty());
}

#[test]
fn selecting_the_quit_button_requests_termination() {
    let m = MainMenuView::new(W, H);
    let (m, action, _) = m.update(vec![Input::Up, Input::Up, Input::Enter]);
    assert_eq!(m.highlighted, Some(3));
    assert!(matches!(action, Some(ViewAction::ExitGame)));
}

#[test]
fn selecting_the_options_button_opens_a_child_view() {
    let m = MainMenuView::new(W, H);
    let (m, action, _) = m.update(vec![Input::Down, Input::Down, Input::Enter]);
    assert_eq!(m.highlighted, Some(1));
    assert!(m.in_child_view);
    assert!(action.is_none());
}

#[test]
fn a_child_view_swallows_everything_but_pause() {
    let m = MainMenuView::new(W, H);
    let (m, _, _) = m.update(vec![Input::Down, Input::Down, Input::Enter]);
    assert!(m.in_child_view);
    let before = m.clone();
    let (m, action, remaining) = m.update(vec![Input::Down, Input::Enter]);
    assert_eq!(m, before);
    assert!(action.is_none());
    assert!(remaining.is_empty());
    let (m, _, _) = m.update(vec![Input::Pause]);
    assert!(!m.in_child_view);
}

#[test]
fn the_pointer_highlights_the_button_under_it() {
    let m = MainMenuView::new(W, H);
    let (m, _, _) = m.update(vec![Input::MouseMotion(Vector2::new(350, 460))]);
    assert_eq!(m.highlighted, Some(1));
    assert!(m.options_button.hover);
    assert!(!m.play_button.hover);
}

#[test]
fn the_full_menu_draws_backdrop_title_buttons_and_tags() {
    let m = MainMenuView::new(W, H);
    let drawables = m.get_view_data();
    assert_eq!(drawables.len(), 12);
    assert_eq!(drawables[0], Drawable::Fill(Color { r: 64, g: 155, b: 0 }));
    assert_eq!(drawables[1], Drawable::Sprite(SpriteKind::Title));
    assert_eq!(
        drawables[2],
        Drawable::FilledRectangle(m.play_button.region, Color { r: 75, g: 185, b: 30 })
    );
    assert_eq!(drawables[3], Drawable::Sprite(SpriteKind::PlayLabel));
    assert_eq!(drawables[10], Drawable::Sprite(SpriteKind::Version));
    assert_eq!(drawables[11], Drawable::Sprite(SpriteKind::Author));
}

#[test]
fn a_hovered_button_draws_highlighted() {
    let m = MainMenuView::new(W, H);
    let (m, _, _) = m.update(vec![Input::Down]);
    let drawables = m.get_view_data();
    assert_eq!(
        drawables[2],
        Drawable::FilledRectangle(m.play_button.region, Color { r: 100, g: 210, b: 50 })
    );
}

#[test]
fn a_menu_in_a_child_view_draws_only_the_backdrop() {
    let m = MainMenuView::new(W, H);
    let (m, _, _) = m.update(vec![Input::Down, Input::Down, Input::Enter]);
    let drawables = m.get_view_data();
    assert_eq!(drawables, vec![Drawable::Fill(Color { r: 64, g: 155, b: 0 })]);
}

#[test]
fn terrain_bands_cover_their_grid_rows() {
    let g = GameView::new(W, H);
    assert_eq!(g.road.region.position, Vector2::new(0, 413));
    assert_eq!(g.road.region.get_size(), Vector2::new(1366, 295));
    assert_eq!(g.river.region.position, Vector2::new(0, 59));
    assert_eq!(g.river.region.get_size(), Vector2::new(1366, 295));
}

#[test]
fn the_game_draws_ground_road_river_and_frog() {
    let g = GameView::new(W, H);
    let drawables = g.get_view_data();
    assert_eq!(drawables.len(), 4);
    assert_eq!(drawables[0], Drawable::Fill(Color { r: 64, g: 155, b: 0 }));
    assert_eq!(
        drawables[1],
        Drawable::FilledRectangle(g.road.region, Color { r: 80, g: 80, b: 80 })
    );
    assert_eq!(
        drawables[2],
        Drawable::FilledRectangle(g.river.region, Color { r: 0, g: 0, b: 128 })
    );
    assert_eq!(drawables[3], Drawable::Sprite(SpriteKind::Frog));
}

#[test]
fn pause_replaces_the_game_with_a_fresh_menu() {
    let g = GameView::new(W, H);
    let (_, action, remaining) = g.update(vec![Input::Pause]);
    match action {
        Some(ViewAction::SetView(AppView::MainMenu(menu))) => {
            assert_eq!(menu, MainMenuView::new(W, H));
        },
        _ => panic!("expected the stack to be replaced with the main menu"),
    }
    assert!(remaining.is_empty());
}

#[test]
fn the_game_ignores_other_input() {
    let g = GameView::new(W, H);
    let before = g;
    let (g, action, remaining) = g.update(vec![Input::Up, Input::Enter]);
    assert_eq!(g, before);
    assert!(action.is_none());
    assert!(remaining.is_empty());
}

#[test]
fn quitting_through_the_stacked_menu_signals_exit() {
    let stack = vec![AppView::MainMenu(MainMenuView::new(W, H))];
    let (_, exit, _) = advance(stack, vec![Input::Up, Input::Up, Input::Enter], 0);
    assert!(exit);
}

#[test]
fn pausing_the_stacked_game_swaps_in_the_menu() {
    let stack = vec![AppView::Game(GameView::new(W, H))];
    let (stack, exit, _) = advance(stack, vec![Input::Pause], 0);
    assert!(!exit);
    assert_eq!(stack.len(), 1);
    assert!(matches!(stack[0], AppView::MainMenu(_)));
}
