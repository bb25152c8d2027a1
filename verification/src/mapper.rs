//! From input events to intent.
//!
//! A drag gesture begins where the pointer goes down, steers while the
//! pointer moves, and ends when the pointer is released.  [`Controls`] is the
//! state that survives from one event to the next; [`step`] says what one
//! event does to it and [`run`] what a sequence of events does.  The
//! executable functions compute exactly these.

use vstd::prelude::*;
use crate::events::Event;
use crate::geometry::{DragVector, Vec2i};
use crate::intent::{Intent, Throttle, DRAG_THRESHOLD};

verus! {

/// Everything the input has established so far.
#[derive(Clone, Copy, Debug, PartialEq, Eq, Structural)]
pub struct Controls {
    /// Where the drag in progress began; `None` while no drag is active.
    pub drag: Option<Vec2i>,
    /// The heading and speed asked for.
    pub intent: Intent,
    /// The size of the drawing surface as last reported; `None` until the
    /// first resize.  The camera's aspect ratio is `x / y` of this size.
    pub viewport: Option<Vec2i>,
}

/// The controls after one more event.
///
/// * A resize replaces the viewport and touches nothing else.
/// * The pointer going down anchors a drag, unless one is active already.
/// * A move steers by the displacement from the anchor; without an active
///   drag it does nothing.
/// * A release ends the drag and leaves the intent as it is.
pub open spec fn step(c: Controls, e: Event) -> Controls {
    match e {
        Event::Resize(size) => Controls { viewport: Some(size), ..c },
        Event::Down(pos) => match c.drag {
            Some(_) => c,
            None => Controls { drag: Some(pos), ..c },
        },
        Event::Move(pos) => match c.drag {
            Some(anchor) => Controls {
                intent: c.intent.spec_steer(DragVector::spec_between(anchor, pos)),
                ..c
            },
            None => c,
        },
        Event::Up => Controls { drag: None, ..c },
    }
}

/// The controls after the events of `events`, taken in order.
pub open spec fn run(c: Controls, events: Seq<Event>) -> Controls
    decreases events.len(),
{
    if events.len() == 0 {
        c
    } else {
        step(run(c, events.drop_last()), events.last())
    }
}

/// Whether `events` holds a resize.
pub open spec fn has_resize(events: Seq<Event>) -> bool {
    exists|i: int| 0 <= i < events.len() && events[i] is Resize
}

/// The viewport for which the camera has to be set up again after `events`:
/// the one they lead to, if they hold a resize, and none if they do not.
pub open spec fn new_viewport(c: Controls, events: Seq<Event>) -> Option<Vec2i> {
    if has_resize(events) {
        run(c, events).viewport
    } else {
        None
    }
}

impl Controls {
    /// Controls that events can lead to: see [`Intent::wf`].
    pub open spec fn wf(self) -> bool {
        self.intent.wf()
    }

    /// The controls before any input.
    pub open spec fn spec_new() -> Controls {
        Controls { drag: None, intent: Intent::spec_initial(), viewport: None }
    }

    /// The controls before any input: no drag, the boat at rest on its
    /// starting heading, no viewport yet.
    pub fn new() -> (c: Controls)
        ensures
            c == Self::spec_new(),
            c.wf(),
    {
        Controls { drag: None, intent: Intent::initial(), viewport: None }
    }

    /// Takes one event.
    pub fn apply_event(&mut self, event: Event)
        ensures
            *final(self) == step(*old(self), event),
            old(self).wf() ==> final(self).wf(),
    {
        match event {
            Event::Resize(size) => {
                self.viewport = Some(size);
            },
            Event::Down(pos) => {
                if self.drag.is_none() {
                    self.drag = Some(pos);
                }
            },
            Event::Move(pos) => {
                match self.drag {
                    Some(anchor) => {
                        self.intent = self.intent.steer(DragVector::between(anchor, pos));
                    },
                    None => {},
                }
            },
            Event::Up => {
                self.drag = None;
            },
        }
    }

    /// Takes the events of one frame, in order.  Where they hold a resize,
    /// returns the viewport they lead to, for which the camera has to be set
    /// up again; where they hold none, returns `None`.
    pub fn map_events(&mut self, events: &Vec<Event>) -> (resized: Option<Vec2i>)
        ensures
            *final(self) == run(*old(self), events@),
            resized == new_viewport(*old(self), events@),
            old(self).wf() ==> final(self).wf(),
    {
        let mut resized: Option<Vec2i> = None;
        let mut i: usize = 0;
        while i < events.len()
            invariant
                i <= events.len(),
                *self == run(*old(self), events@.take(i as int)),
                resized == new_viewport(*old(self), events@.take(i as int)),
                old(self).wf() ==> self.wf(),
            decreases events.len() - i,
        {
            let event = events[i];
            proof {
                let before = events@.take(i as int);
                let after = events@.take(i + 1);
                assert(after.drop_last() == before);
                assert(after.last() == event);
                if has_resize(before) {
                    let k = choose|k: int| 0 <= k < before.len() && before[k] is Resize;
                    assert(after[k] is Resize);
                }
                if event is Resize {
                    assert(after[i as int] is Resize);
                }
                if has_resize(after) {
                    let k = choose|k: int| 0 <= k < after.len() && after[k] is Resize;
                    if k < i {
                        assert(before[k] is Resize);
                    }
                }
            }
            if let Event::Resize(size) = event {
                resized = Some(size);
            }
            self.apply_event(event);
            i = i + 1;
        }
        proof {
            assert(events@.take(i as int) == events@);
        }
        resized
    }
}

/// Releasing the pointer ends the drag and asks nothing new of the boat:
/// heading and speed stay as the last move left them.  In particular a
/// release does not stop the boat.
pub proof fn release_keeps_intent(c: Controls)
    ensures
        step(c, Event::Up).intent == c.intent,
        step(c, Event::Up).viewport == c.viewport,
        step(c, Event::Up).drag is None,
{
}

/// A move that arrives while no drag is active changes nothing.
pub proof fn stray_move_is_ignored(c: Controls, pos: Vec2i)
    requires
        c.drag is None,
    ensures
        step(c, Event::Move(pos)) == c,
{
}

/// A move inside the dead zone asks the boat to stop and to keep its
/// heading; a move beyond it sets the heading to the drag's direction and
/// the speed to the drag's throttle.
pub proof fn move_steers_by_displacement(c: Controls, anchor: Vec2i, pos: Vec2i)
    requires
        c.drag == Some(anchor),
    ensures
        ({
            let v = DragVector::spec_between(anchor, pos);
            let next = step(c, Event::Move(pos));
            &&& next.drag == c.drag
            &&& next.viewport == c.viewport
            &&& next.intent.speed == Throttle::spec_of_drag(v)
            &&& v.dist_sq() <= DRAG_THRESHOLD * DRAG_THRESHOLD ==> next.intent.heading
                == c.intent.heading && next.intent.speed is Idle
            &&& v.dist_sq() > DRAG_THRESHOLD * DRAG_THRESHOLD ==> next.intent.heading == Some(v)
                && !(next.intent.speed is Idle)
        }),
{
}

/// A frame without events leaves the controls exactly as they were, so
/// through any number of quiet frames the boat is asked for the same heading
/// and speed.
pub proof fn quiet_frame_changes_nothing(c: Controls)
    ensures
        run(c, Seq::<Event>::empty()) == c,
{
}

/// Events have the same effect whether they arrive in one frame or spread
/// over two: taking `first` and then `second` is taking `first + second`.
pub proof fn run_splits(c: Controls, first: Seq<Event>, second: Seq<Event>)
    ensures
        run(c, first + second) == run(run(c, first), second),
    decreases second.len(),
{
    if second.len() == 0 {
        assert(first + second == first);
    } else {
        run_splits(c, first, second.drop_last());
        assert((first + second).drop_last() == first + second.drop_last());
        assert((first + second).last() == second.last());
    }
}

/// Whatever the events, they lead from well-formed controls to well-formed
/// controls.
pub proof fn run_preserves_wf(c: Controls, events: Seq<Event>)
    requires
        c.wf(),
    ensures
        run(c, events).wf(),
    decreases events.len(),
{
    if events.len() > 0 {
        run_preserves_wf(c, events.drop_last());
    }
}

/// After a frame the viewport is the size that the frame's last resize
/// reported, exactly, whatever came before or after it, and the camera is to
/// be set up for that size.
pub proof fn last_resize_decides_viewport(c: Controls, events: Seq<Event>, i: int)
    requires
        0 <= i < events.len(),
        events[i] is Resize,
        forall|j: int| i < j < events.len() ==> !(events[j] is Resize),
    ensures
        run(c, events).viewport == Some(events[i]->Resize_0),
        new_viewport(c, events) == Some(events[i]->Resize_0),
    decreases events.len(),
{
    if i < events.len() - 1 {
        let rest = events.drop_last();
        assert(rest[i] == events[i]);
        assert forall|j: int| i < j < rest.len() implies !(rest[j] is Resize) by {
            assert(rest[j] == events[j]);
        }
        last_resize_decides_viewport(c, rest, i);
    }
}

/// A frame without a resize leaves the viewport as it was, and the camera
/// needs no new setup.
pub proof fn without_resize_viewport_stays(c: Controls, events: Seq<Event>)
    requires
        !has_resize(events),
    ensures
        run(c, events).viewport == c.viewport,
        new_viewport(c, events) is None,
    decreases events.len(),
{
    if events.len() > 0 {
        let rest = events.drop_last();
        assert forall|j: int| 0 <= j < rest.len() implies !(rest[j] is Resize) by {
            assert(rest[j] == events[j]);
        }
        without_resize_viewport_stays(c, rest);
        assert(!(events[events.len() - 1] is Resize));
    }
}

/// The anchor of a drag stays where the pointer went down until the pointer
/// is released: neither moves nor resizes nor further presses shift it.
pub proof fn anchor_is_kept_until_release(c: Controls, events: Seq<Event>)
    requires
        c.drag is Some,
        forall|i: int| 0 <= i < events.len() ==> !(events[i] is Up),
    ensures
        run(c, events).drag == c.drag,
    decreases events.len(),
{
    if events.len() > 0 {
        let rest = events.drop_last();
        assert forall|i: int| 0 <= i < rest.len() implies !(rest[i] is Up) by {
            assert(rest[i] == events[i]);
        }
        anchor_is_kept_until_release(c, rest);
        assert(!(events[events.len() - 1] is Up));
    }
}

/// The intent is held while the pointer does not move: events among which
/// there is no move leave heading and speed as they were, whatever else they
/// do.
pub proof fn without_moves_intent_is_held(c: Controls, events: Seq<Event>)
    requires
        forall|i: int| 0 <= i < events.len() ==> !(events[i] is Move),
    ensures
        run(c, events).intent == c.intent,
    decreases events.len(),
{
    if events.len() > 0 {
        let rest = events.drop_last();
        assert forall|i: int| 0 <= i < rest.len() implies !(rest[i] is Move) by {
            assert(rest[i] == events[i]);
        }
        without_moves_intent_is_held(c, rest);
        assert(!(events[events.len() - 1] is Move));
    }
}

/// Resizes steer nothing: a frame that holds only resizes leaves the drag and
/// the intent as they were.
pub proof fn resizes_do_not_steer(c: Controls, events: Seq<Event>)
    requires
        forall|i: int| 0 <= i < events.len() ==> events[i] is Resize,
    ensures
        run(c, events).intent == c.intent,
        run(c, events).drag == c.drag,
    decreases events.len(),
{
    if events.len() > 0 {
        let rest = events.drop_last();
        assert forall|i: int| 0 <= i < rest.len() implies rest[i] is Resize by {
            assert(rest[i] == events[i]);
        }
        resizes_do_not_steer(c, rest);
        assert(events[events.len() - 1] is Resize);
    }
}

} // verus!
