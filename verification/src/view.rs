//! The view-stack engine.
//!
//! A `View` is one screen of the application.  The stack holds views with
//! index 0 topmost: rendered last (on top) and handed input first.  Each
//! engine pass moves every view through its update in top-to-bottom order,
//! hands the input a view did not consume to the next view down, and
//! rebuilds the stack from the returned transition requests.

use crate::graphics::Drawable;
use crate::input::Input;
use vstd::prelude::*;

verus! {

/// A screen's declarative request to mutate the view stack: the only ways
/// a view may affect it.  At most one request is returned per update.
pub enum ViewAction<V> {
    /// Discard the whole stack; the new stack is exactly the given view.
    SetView(V),
    /// Put the given view on top of the rebuilt stack and keep the
    /// requesting view.
    AddView(V),
    /// Drop the requesting view from the rebuilt stack.
    RemoveSelf,
    /// Terminate the application.
    ExitGame,
}

/// The drawable snapshot a view exposes for one render call.
pub struct ViewData {
    pub graphic_objects: Vec<Drawable>,
}

/// A screen: something that can describe its picture and advance its own
/// state from pending input and elapsed time.
///
/// The two spec methods give the exact meaning of the two operations, so
/// the engine's contract can describe a whole pass functionally.  A view is
/// moved into the update and moved back out: the stack is its only owner.
pub trait Screen: Sized {
    /// What one update computes: the updated view, at most one transition
    /// request, and the input left for the next view down.
    spec fn spec_update(self, input: Seq<Input>, elapsed_ns: i64) -> (
        Self,
        Option<ViewAction<Self>>,
        Seq<Input>,
    );

    /// The drawables the view exposes, in its own paint order.
    spec fn spec_view_data(&self) -> Seq<Drawable>;

    /// Advances the view; any input returned is passed to the next view.
    fn update(self, input: Vec<Input>, elapsed_ns: i64) -> (r: (
        Self,
        Option<ViewAction<Self>>,
        Vec<Input>,
    ))
        ensures
            ({
                let (view, action, remaining) = self.spec_update(input@, elapsed_ns);
                r.0 == view && r.1 == action && r.2@ == remaining
            }),
    ;

    fn get_view_data(&self) -> (r: ViewData)
        ensures
            r.graphic_objects@ == self.spec_view_data(),
    ;
}

/// The outcome of one engine pass: the rebuilt stack, whether termination
/// was requested, and the input no view consumed.
pub struct Outcome<V> {
    pub stack: Seq<V>,
    pub exit: bool,
    pub input: Seq<Input>,
}

/// One engine pass over the views still to process, given the stack
/// rebuilt so far.  Views are processed from topmost to bottommost; the
/// input each view leaves becomes the input of the next.  A `SetView` or
/// `ExitGame` stops the pass at once, so views below the requester are
/// never updated in that pass.
pub open spec fn spec_advance_from<V: Screen>(
    rebuilt: Seq<V>,
    views: Seq<V>,
    input: Seq<Input>,
    elapsed_ns: i64,
) -> Outcome<V>
    decreases views.len(),
{
    if views.len() == 0 {
        Outcome { stack: rebuilt, exit: false, input }
    } else {
        let (view, action, remaining) = views[0].spec_update(input, elapsed_ns);
        match action {
            None => spec_advance_from(rebuilt.push(view), views.skip(1), remaining, elapsed_ns),
            Some(ViewAction::RemoveSelf) => spec_advance_from(
                rebuilt,
                views.skip(1),
                remaining,
                elapsed_ns,
            ),
            Some(ViewAction::AddView(added)) => spec_advance_from(
                seq![added] + rebuilt + seq![view],
                views.skip(1),
                remaining,
                elapsed_ns,
            ),
            Some(ViewAction::SetView(set)) => Outcome {
                stack: seq![set],
                exit: false,
                input: remaining,
            },
            Some(ViewAction::ExitGame) => Outcome { stack: rebuilt, exit: true, input: remaining },
        }
    }
}

/// One whole engine pass over a stack.
pub open spec fn spec_advance<V: Screen>(views: Seq<V>, input: Seq<Input>, elapsed_ns: i64) -> Outcome<
    V,
> {
    spec_advance_from(Seq::empty(), views, input, elapsed_ns)
}

/// Drives one update pass over the stack and rebuilds it from the returned
/// requests, exactly as `spec_advance` describes: the rebuilt stack, the
/// exit signal, and the input no view consumed.
#[verifier::loop_isolation(false)]
pub fn advance<V: Screen>(views: Vec<V>, input: Vec<Input>, elapsed_ns: i64) -> (r: (
    Vec<V>,
    bool,
    Vec<Input>,
))
    ensures
        ({
            let outcome = spec_advance(views@, input@, elapsed_ns);
            r.0@ == outcome.stack && r.1 == outcome.exit && r.2@ == outcome.input
        }),
{
    let ghost orig_views = views@;
    let ghost orig_input = input@;
    let mut views = views;
    let mut input = input;
    let mut rebuilt: Vec<V> = Vec::new();
    while views.len() > 0
        invariant
            spec_advance_from(rebuilt@, views@, input@, elapsed_ns) == spec_advance_from(
                Seq::empty(),
                orig_views,
                orig_input,
                elapsed_ns,
            ),
        decreases views.len(),
    {
        let ghost pre_rebuilt = rebuilt@;
        let ghost pre_views = views@;
        let ghost pre_input = input@;
        let view = views.remove(0);
        proof {
            assert(pre_views.remove(0) =~= pre_views.skip(1));
        }
        let (view, action, pass_input) = view.update(input, elapsed_ns);
        input = pass_input;
        proof {
            assert(pre_views[0].spec_update(pre_input, elapsed_ns) == (view, action, input@));
        }
        match action {
            None => {
                rebuilt.push(view);
                proof {
                    assert(spec_advance_from(pre_rebuilt, pre_views, pre_input, elapsed_ns)
                        == spec_advance_from(rebuilt@, views@, input@, elapsed_ns));
                }
            },
            Some(ViewAction::RemoveSelf) => {
                proof {
                    assert(spec_advance_from(pre_rebuilt, pre_views, pre_input, elapsed_ns)
                        == spec_advance_from(rebuilt@, views@, input@, elapsed_ns));
                }
            },
            Some(ViewAction::AddView(added)) => {
                rebuilt.insert(0, added);
                rebuilt.push(view);
                proof {
                    assert(rebuilt@ =~= seq![added] + pre_rebuilt + seq![view]);
                    assert(spec_advance_from(pre_rebuilt, pre_views, pre_input, elapsed_ns)
                        == spec_advance_from(rebuilt@, views@, input@, elapsed_ns));
                }
            },
            Some(ViewAction::SetView(set)) => {
                let mut only: Vec<V> = Vec::new();
                only.push(set);
                proof {
                    assert(only@ =~= seq![set]);
                    assert(spec_advance_from(pre_rebuilt, pre_views, pre_input, elapsed_ns)
                        == (Outcome { stack: seq![set], exit: false, input: input@ }));
                }
                return (only, false, input);
            },
            Some(ViewAction::ExitGame) => {
                proof {
                    assert(spec_advance_from(pre_rebuilt, pre_views, pre_input, elapsed_ns)
                        == (Outcome { stack: rebuilt@, exit: true, input: input@ }));
                }
                return (rebuilt, true, input);
            },
        }
    }
    (rebuilt, false, input)
}

/// Every view the pass reaches asks to be removed, down the chain of
/// passed-on input.
pub open spec fn spec_all_removed<V: Screen>(views: Seq<V>, input: Seq<Input>, elapsed_ns: i64) -> bool
    decreases views.len(),
{
    if views.len() == 0 {
        true
    } else {
        let (view, action, remaining) = views[0].spec_update(input, elapsed_ns);
        &&& action matches Some(ViewAction::RemoveSelf)
        &&& spec_all_removed(views.skip(1), remaining, elapsed_ns)
    }
}

/// Stack invariant: a pass over a non-empty stack leaves a non-empty stack
/// unless termination was signaled — provided not every reached view asked
/// to remove itself, the one way the stack can legitimately empty out.
pub proof fn lemma_advance_nonempty<V: Screen>(views: Seq<V>, input: Seq<Input>, elapsed_ns: i64)
    requires
        views.len() > 0,
        !spec_all_removed(views, input, elapsed_ns),
        !spec_advance(views, input, elapsed_ns).exit,
    ensures
        spec_advance(views, input, elapsed_ns).stack.len() > 0,
{
    lemma_advance_from_nonempty(Seq::empty(), views, input, elapsed_ns);
}

proof fn lemma_advance_from_nonempty<V: Screen>(
    rebuilt: Seq<V>,
    views: Seq<V>,
    input: Seq<Input>,
    elapsed_ns: i64,
)
    requires
        rebuilt.len() > 0 || !spec_all_removed(views, input, elapsed_ns),
        !spec_advance_from(rebuilt, views, input, elapsed_ns).exit,
    ensures
        spec_advance_from(rebuilt, views, input, elapsed_ns).stack.len() > 0,
    decreases views.len(),
{
    if views.len() == 0 {
    } else {
        let (view, action, remaining) = views[0].spec_update(input, elapsed_ns);
        match action {
            None => {
                lemma_advance_from_nonempty(rebuilt.push(view), views.skip(1), remaining, elapsed_ns);
            },
            Some(ViewAction::RemoveSelf) => {
                lemma_advance_from_nonempty(rebuilt, views.skip(1), remaining, elapsed_ns);
            },
            Some(ViewAction::AddView(added)) => {
                lemma_advance_from_nonempty(
                    seq![added] + rebuilt + seq![view],
                    views.skip(1),
                    remaining,
                    elapsed_ns,
                );
            },
            Some(ViewAction::SetView(set)) => {},
            Some(ViewAction::ExitGame) => {},
        }
    }
}

/// Push-above ordering: when the only view of the stack `[a]` requests
/// that `b` be added, the pass yields the stack `[b, a']` — the added view
/// on top, the updated requester right below it.
pub proof fn lemma_add_view_ordering<V: Screen>(a: V, b: V, input: Seq<Input>, elapsed_ns: i64)
    requires
        a.spec_update(input, elapsed_ns).1 == Some(ViewAction::AddView(b)),
    ensures
        spec_advance(seq![a], input, elapsed_ns).stack == seq![b, a.spec_update(
            input,
            elapsed_ns,
        ).0],
        !spec_advance(seq![a], input, elapsed_ns).exit,
{
    let views = seq![a];
    let (view, action, remaining) = a.spec_update(input, elapsed_ns);
    assert(views[0] == a);
    assert(views.skip(1) =~= Seq::<V>::empty());
    assert(spec_advance_from(Seq::<V>::empty(), views, input, elapsed_ns) == spec_advance_from(
        seq![b] + Seq::<V>::empty() + seq![view],
        views.skip(1),
        remaining,
        elapsed_ns,
    ));
    assert(spec_advance_from(
        seq![b] + Seq::<V>::empty() + seq![view],
        Seq::<V>::empty(),
        remaining,
        elapsed_ns,
    ).stack == seq![b] + Seq::<V>::empty() + seq![view]);
    assert(seq![b] + Seq::<V>::empty() + seq![view] =~= seq![b, view]);
}

/// Replace-all short circuit: when the topmost view of `[a] + rest`
/// requests that the stack become `d`, the pass yields exactly `[d]` and
/// no view in `rest` is reached, whatever `rest` holds.
pub proof fn lemma_set_view_short_circuit<V: Screen>(
    a: V,
    d: V,
    rest: Seq<V>,
    input: Seq<Input>,
    elapsed_ns: i64,
)
    requires
        a.spec_update(input, elapsed_ns).1 == Some(ViewAction::SetView(d)),
    ensures
        spec_advance(seq![a] + rest, input, elapsed_ns).stack == seq![d],
        !spec_advance(seq![a] + rest, input, elapsed_ns).exit,
{
    let views = seq![a] + rest;
    let (view, action, remaining) = a.spec_update(input, elapsed_ns);
    assert(views[0] == a);
    assert(views.len() > 0);
    assert(spec_advance_from(Seq::<V>::empty(), views, input, elapsed_ns) == Outcome {
        stack: seq![d],
        exit: false,
        input: remaining,
    });
}

/// Topmost-first input routing: in a two-view stack whose topmost view
/// consumes all input it receives (and stays resident), the bottommost
/// view observes an empty input buffer.
pub proof fn lemma_topmost_first_routing<V: Screen>(
    top: V,
    bottom: V,
    input: Seq<Input>,
    elapsed_ns: i64,
)
    requires
        top.spec_update(input, elapsed_ns).1 is None,
        top.spec_update(input, elapsed_ns).2 == Seq::<Input>::empty(),
        bottom.spec_update(Seq::empty(), elapsed_ns).1 is None,
    ensures
        spec_advance(seq![top, bottom], input, elapsed_ns).stack == seq![
            top.spec_update(input, elapsed_ns).0,
            bottom.spec_update(Seq::empty(), elapsed_ns).0,
        ],
        spec_advance(seq![top, bottom], input, elapsed_ns).input == bottom.spec_update(
            Seq::empty(),
            elapsed_ns,
        ).2,
{
    let views = seq![top, bottom];
    let top2 = top.spec_update(input, elapsed_ns).0;
    let empty_input = top.spec_update(input, elapsed_ns).2;
    let bottom2 = bottom.spec_update(Seq::empty(), elapsed_ns).0;
    let bottom_left = bottom.spec_update(Seq::empty(), elapsed_ns).2;
    assert(views[0] == top);
    assert(views.skip(1) =~= seq![bottom]);
    assert(empty_input == Seq::<Input>::empty());
    assert(spec_advance_from(Seq::<V>::empty(), views, input, elapsed_ns) == spec_advance_from(
        Seq::<V>::empty().push(top2),
        views.skip(1),
        empty_input,
        elapsed_ns,
    ));
    assert(seq![bottom][0] == bottom);
    assert(spec_advance_from(Seq::<V>::empty().push(top2), seq![bottom], Seq::empty(), elapsed_ns)
        == spec_advance_from(
        Seq::<V>::empty().push(top2).push(bottom2),
        seq![bottom].skip(1),
        bottom_left,
        elapsed_ns,
    ));
    assert(seq![bottom].skip(1) =~= Seq::<V>::empty());
    assert(spec_advance_from(
        Seq::<V>::empty().push(top2).push(bottom2),
        Seq::<V>::empty(),
        bottom_left,
        elapsed_ns,
    ).stack == Seq::<V>::empty().push(top2).push(bottom2));
    assert(Seq::<V>::empty().push(top2).push(bottom2) =~= seq![top2, bottom2]);
}

} // verus!
