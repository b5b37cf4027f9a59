//! Drawable descriptions and render-order flattening.
//!
//! A view exposes its picture as plain data: a list of `Drawable`s in its
//! own paint order.  The renderer collaborator that turns them into pixels
//! is outside this core; `GraphicRenderer` contributes the one part with an
//! ordering guarantee, the bottommost-first traversal of the view stack.

use crate::math::Rectangle;
use crate::view::Screen;
use vstd::prelude::*;

verus! {

#[derive(Clone, Copy, Debug, PartialEq, Eq, Structural)]
pub struct Color {
    pub r: u8,
    pub g: u8,
    pub b: u8,
}

impl Color {
    pub fn rgb(r: u8, g: u8, b: u8) -> (c: Color)
        ensures
            c == (Color { r, g, b }),
    {
        Color { r, g, b }
    }
}

/// Identifies a prerendered sprite (text or image) whose pixels live with
/// the renderer collaborator.
#[derive(Clone, Copy, Debug, PartialEq, Eq, Structural)]
pub enum SpriteKind {
    Title,
    PlayLabel,
    OptionsLabel,
    ScoresLabel,
    QuitLabel,
    Version,
    Author,
    Frog,
}

/// One drawable object, described as plain data for the renderer.
#[derive(Clone, Copy, Debug, PartialEq, Eq, Structural)]
pub enum Drawable {
    /// Fill the whole screen with a color.
    Fill(Color),
    /// Fill one region with a color.
    FilledRectangle(Rectangle, Color),
    /// Blit a prerendered sprite.
    Sprite(SpriteKind),
}

/// The draw list of a whole stack: the bottommost view's drawables first,
/// the topmost view's last, and within one view the order the view gives.
pub open spec fn spec_draw_order<V: Screen>(views: Seq<V>) -> Seq<Drawable>
    decreases views.len(),
{
    if views.len() == 0 {
        Seq::empty()
    } else {
        spec_draw_order(views.skip(1)) + views[0].spec_view_data()
    }
}

pub struct GraphicRenderer;

impl GraphicRenderer {
    pub fn new() -> GraphicRenderer {
        GraphicRenderer
    }

    /// Flattens the stack into one draw list, bottommost view first so the
    /// topmost view is drawn last and appears on top.
    pub fn get_drawables<V: Screen>(&self, views: &Vec<V>) -> (r: Vec<Drawable>)
        ensures
            r@ == spec_draw_order(views@),
    {
        let mut drawables: Vec<Drawable> = Vec::new();
        let mut i: usize = views.len();
        while i > 0
            invariant
                i <= views.len(),
                drawables@ == spec_draw_order(views@.skip(i as int)),
            decreases i,
        {
            i = i - 1;
            let mut data = views[i].get_view_data();
            proof {
                assert(views@.skip(i as int)[0] == views@[i as int]);
                assert(views@.skip(i as int).skip(1) =~= views@.skip(i + 1));
            }
            drawables.append(&mut data.graphic_objects);
        }
        proof {
            assert(views@.skip(0) =~= views@);
        }
        drawables
    }
}

/// A font descriptor: the renderer collaborator resolves it to an actual
/// loaded font and caches by this value.
#[derive(PartialEq, Eq, Hash, Clone, Copy, Debug)]
pub struct Font {
    pub path: &'static str,
    pub size: u16,
}

} // verus!
