//! The input pipeline: translation of raw platform events into abstract
//! inputs, and pure menu navigation over a sequence of inputs.
//!
//! `translate` is a total function from one raw event to at most one
//! `Input`; unrecognized events yield `None` and are silently dropped.
//! `menu` consumes an ordered input sequence plus clickable-region metadata
//! and returns the new highlight and any selection, with no hidden state.

use crate::math::{Rectangle, Vector2};
use vstd::prelude::*;

verus! {

/// The closed set of abstract input events.  Several physical encodings may
/// map to the same value; `JoystickMotion` is reserved for non-pointer
/// analog input and is produced by no translation yet.
#[derive(Clone, Copy, Debug, PartialEq, Eq, Structural)]
pub enum Input {
    Up,
    Down,
    Left,
    Right,
    Enter,
    MouseMotion(Vector2),
    JoystickMotion(Vector2),
    Pause,
    Exit,
}

/// The keys the translation distinguishes; every other key is `Other`.
#[derive(Clone, Copy, Debug, PartialEq, Eq, Structural)]
pub enum Keycode {
    W,
    S,
    A,
    D,
    Up,
    Down,
    Left,
    Right,
    Return,
    Escape,
    Other,
}

/// The mouse buttons the translation distinguishes.
#[derive(Clone, Copy, Debug, PartialEq, Eq, Structural)]
pub enum MouseButton {
    Left,
    Other,
}

/// One raw platform event, reduced to the plain values the pipeline reads:
/// a pressed key, a pressed mouse button, a pointer position in pixels, a
/// window-close request, or anything else.
#[derive(Clone, Copy, Debug, PartialEq, Eq, Structural)]
pub enum RawEvent {
    KeyDown(Keycode),
    MouseButtonDown(MouseButton),
    MouseMotion(Vector2),
    Quit,
    Unknown,
}

/// What `translate` returns for each raw event: the intentional
/// many-to-one mapping from physical encodings to abstract inputs.
pub open spec fn spec_translate(event: RawEvent) -> Option<Input> {
    match event {
        RawEvent::KeyDown(key) => match key {
            Keycode::W | Keycode::Up => Some(Input::Up),
            Keycode::S | Keycode::Down => Some(Input::Down),
            Keycode::A | Keycode::Left => Some(Input::Left),
            Keycode::D | Keycode::Right => Some(Input::Right),
            Keycode::Return => Some(Input::Enter),
            Keycode::Escape => Some(Input::Pause),
            Keycode::Other => None,
        },
        RawEvent::MouseButtonDown(button) => match button {
            MouseButton::Left => Some(Input::Enter),
            MouseButton::Other => None,
        },
        RawEvent::MouseMotion(position) => Some(Input::MouseMotion(position)),
        RawEvent::Quit => Some(Input::Exit),
        RawEvent::Unknown => None,
    }
}

pub struct InputTranslator;

impl InputTranslator {
    pub fn new() -> InputTranslator {
        InputTranslator
    }

    /// Translates one raw platform event into at most one abstract input.
    pub fn translate(&self, event: &RawEvent) -> (r: Option<Input>)
        ensures
            r == spec_translate(*event),
    {
        match *event {
            RawEvent::KeyDown(Keycode::W) | RawEvent::KeyDown(Keycode::Up) => Some(Input::Up),
            RawEvent::KeyDown(Keycode::S) | RawEvent::KeyDown(Keycode::Down) => Some(Input::Down),
            RawEvent::KeyDown(Keycode::A) | RawEvent::KeyDown(Keycode::Left) => Some(Input::Left),
            RawEvent::KeyDown(Keycode::D) | RawEvent::KeyDown(Keycode::Right) => {
                Some(Input::Right)
            },
            RawEvent::MouseButtonDown(MouseButton::Left)
            | RawEvent::KeyDown(Keycode::Return) => Some(Input::Enter),
            RawEvent::MouseMotion(position) => Some(Input::MouseMotion(position)),
            RawEvent::KeyDown(Keycode::Escape) => Some(Input::Pause),
            RawEvent::Quit => Some(Input::Exit),
            _ => None,
        }
    }
}

/// Whether the buffer holds the given input.
pub fn contains_input(items: &Vec<Input>, needle: Input) -> (b: bool)
    ensures
        b == items@.contains(needle),
{
    let mut i: usize = 0;
    while i < items.len()
        invariant
            i <= items.len(),
            forall|j: int| 0 <= j < i ==> items@[j] != needle,
        decreases items.len() - i,
    {
        if items[i] == needle {
            assert(items@.contains(needle));
            return true;
        }
        i = i + 1;
    }
    false
}

/// A clickable element of a menu: something with a screen region.
pub trait Button {
    spec fn spec_region(&self) -> Rectangle;

    fn get_region(&self) -> (r: Rectangle)
        ensures
            r == self.spec_region(),
    ;
}

/// The position carried by the last `MouseMotion` in the sequence, if any.
pub open spec fn last_mouse_position(input: Seq<Input>) -> Option<Vector2>
    decreases input.len(),
{
    if input.len() == 0 {
        None
    } else {
        match input.last() {
            Input::MouseMotion(position) => Some(position),
            _ => last_mouse_position(input.drop_last()),
        }
    }
}

/// The index of the last region (in iteration order) that contains the
/// pointer, or `None` if no region does.
pub open spec fn pointer_highlight(regions: Seq<Rectangle>, position: Vector2) -> Option<usize>
    decreases regions.len(),
{
    if regions.len() == 0 {
        None
    } else if regions.last().spec_contains(position) {
        Some((regions.len() - 1) as usize)
    } else {
        pointer_highlight(regions.drop_last(), position)
    }
}

/// One directional or confirm input applied to the `(highlight, selected)`
/// pair, over `n` buttons: `Up` and `Down` move the highlight with
/// wraparound and set it to the first button when none is highlighted;
/// `Enter` records the highlight as the selection; everything else is
/// ignored.
pub open spec fn nav_step(
    state: (Option<usize>, Option<usize>),
    input: Input,
    n: usize,
) -> (Option<usize>, Option<usize>) {
    match input {
        Input::Up => (
            match state.0 {
                Some(index) => if index == 0 {
                    Some((n - 1) as usize)
                } else {
                    Some((index - 1) as usize)
                },
                None => Some(0usize),
            },
            state.1,
        ),
        Input::Down => (
            match state.0 {
                Some(index) => if index as int == n - 1 {
                    Some(0usize)
                } else {
                    Some((index + 1) as usize)
                },
                None => Some(0usize),
            },
            state.1,
        ),
        Input::Enter => (state.0, state.0),
        _ => state,
    }
}

/// `nav_step` folded over the input sequence in order.
pub open spec fn nav_fold(
    state: (Option<usize>, Option<usize>),
    input: Seq<Input>,
    n: usize,
) -> (Option<usize>, Option<usize>)
    decreases input.len(),
{
    if input.len() == 0 {
        state
    } else {
        nav_step(nav_fold(state, input.drop_last(), n), input.last(), n)
    }
}

/// The whole navigation result: a pointer position seen this call overrides
/// the incoming highlight (possibly to none), then the directional and
/// confirm inputs are folded in order.
pub open spec fn spec_menu(
    regions: Seq<Rectangle>,
    highlighted: Option<usize>,
    input: Seq<Input>,
) -> (Option<usize>, Option<usize>) {
    let start = match last_mouse_position(input) {
        Some(position) => pointer_highlight(regions, position),
        None => highlighted,
    };
    nav_fold((start, None), input, regions.len() as usize)
}

/// The regions of a sequence of buttons, in order.
pub open spec fn regions_of<B: Button>(items: Seq<&B>) -> Seq<Rectangle> {
    items.map(|i: int, b: &B| b.spec_region())
}

/// Returns the new highlighted item and the selected item.
pub fn menu<B: Button>(
    items: &Vec<&B>,
    highlighted: Option<usize>,
    input: &Vec<Input>,
) -> (r: (Option<usize>, Option<usize>))
    requires
        items.len() > 0,
        highlighted matches Some(h) ==> h < items.len(),
    ensures
        r == spec_menu(regions_of(items@), highlighted, input@),
        r.0 matches Some(h) ==> h < items.len(),
        r.1 matches Some(s) ==> s < items.len(),
{
    let ghost regions = regions_of(items@);

    let mut mouse_position: Option<Vector2> = None;
    let mut i: usize = 0;
    while i < input.len()
        invariant
            i <= input.len(),
            mouse_position == last_mouse_position(input@.take(i as int)),
        decreases input.len() - i,
    {
        proof {
            assert(input@.take(i + 1).drop_last() =~= input@.take(i as int));
            assert(input@.take(i + 1).last() == input@[i as int]);
        }
        match input[i] {
            Input::MouseMotion(position) => {
                mouse_position = Some(position);
            },
            _ => {},
        }
        i = i + 1;
    }
    proof {
        assert(input@.take(input@.len() as int) =~= input@);
    }

    let mut start: Option<usize> = highlighted;
    match mouse_position {
        Some(position) => {
            let mut mouse_highlighted: Option<usize> = None;
            let mut j: usize = 0;
            while j < items.len()
                invariant
                    j <= items.len(),
                    regions == regions_of(items@),
                    regions.len() == items.len(),
                    mouse_highlighted == pointer_highlight(regions.take(j as int), position),
                    mouse_highlighted matches Some(h) ==> h < j,
                decreases items.len() - j,
            {
                proof {
                    assert(regions.take(j + 1).drop_last() =~= regions.take(j as int));
                    assert(regions.take(j + 1).last() == regions[j as int]);
                }
                if items[j].get_region().contains(position) {
                    mouse_highlighted = Some(j);
                }
                j = j + 1;
            }
            proof {
                assert(regions.take(regions.len() as int) =~= regions);
            }
            start = mouse_highlighted;
        },
        None => {},
    }

    let n = items.len();
    let mut state: (Option<usize>, Option<usize>) = (start, None);
    let mut k: usize = 0;
    while k < input.len()
        invariant
            k <= input.len(),
            n == items.len(),
            n > 0,
            state == nav_fold((start, None), input@.take(k as int), n),
            state.0 matches Some(h) ==> h < n,
            state.1 matches Some(s) ==> s < n,
        decreases input.len() - k,
    {
        proof {
            assert(input@.take(k + 1).drop_last() =~= input@.take(k as int));
            assert(input@.take(k + 1).last() == input@[k as int]);
        }
        match input[k] {
            Input::Up => {
                state.0 = match state.0 {
                    Some(index) => if index == 0 { Some(n - 1) } else { Some(index - 1) },
                    None => Some(0),
                };
            },
            Input::Down => {
                state.0 = match state.0 {
                    Some(index) => if index == n - 1 { Some(0) } else { Some(index + 1) },
                    None => Some(0),
                };
            },
            Input::Enter => {
                state.1 = state.0;
            },
            _ => {},
        }
        k = k + 1;
    }
    proof {
        assert(input@.take(input@.len() as int) =~= input@);
    }

    state
}

} // verus!
