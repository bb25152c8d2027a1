//! Input events and the queue that carries them from the host to the frame
//! loop.
//!
//! The host reports what happened (a resize, a mouse button, a touch) as plain
//! values; the handlers here decide whether that becomes an [`Event`] and
//! append it to the queue.  Once per frame the loop drains the queue and
//! receives the events in the order in which they were appended.

use vstd::prelude::*;
use crate::geometry::Vec2i;

verus! {

/// One input event, in screen pixels.
#[derive(Clone, Copy, Debug, PartialEq, Eq, Structural)]
pub enum Event {
    /// The drawing surface now measures `x` by `y` pixels.
    Resize(Vec2i),
    /// The pointer went down at this position.
    Down(Vec2i),
    /// The pointer was released.
    Up,
    /// The pointer moved to this position.
    Move(Vec2i),
}

/// The events appended since the last drain, oldest first.
pub struct EventQueue {
    events: Vec<Event>,
}

impl View for EventQueue {
    type V = Seq<Event>;

    closed spec fn view(&self) -> Seq<Event> {
        self.events@
    }
}

impl EventQueue {
    /// An empty queue.
    pub fn new() -> (queue: EventQueue)
        ensures
            queue@ == Seq::<Event>::empty(),
    {
        EventQueue { events: Vec::new() }
    }

    /// Appends `event` behind everything already queued.
    pub fn push(&mut self, event: Event)
        ensures
            final(self)@ == old(self)@.push(event),
    {
        self.events.push(event);
    }

    /// Hands out every queued event, oldest first, and leaves the queue
    /// empty.
    pub fn drain(&mut self) -> (drained: Vec<Event>)
        ensures
            drained@ == old(self)@,
            final(self)@ == Seq::<Event>::empty(),
    {
        let mut drained: Vec<Event> = Vec::new();
        core::mem::swap(&mut self.events, &mut drained);
        drained
    }

    /// The number of queued events.
    pub fn len(&self) -> (n: usize)
        ensures
            n == self@.len(),
    {
        self.events.len()
    }

    /// Whether nothing is queued.
    pub fn is_empty(&self) -> (empty: bool)
        ensures
            empty == (self@.len() == 0),
    {
        self.events.len() == 0
    }
}

/// What a touch handler reads from the host's touch event: how many touches
/// the event carries, and the identifier and position of the first of them.
#[derive(Clone, Copy, Debug, PartialEq, Eq, Structural)]
pub struct Touch {
    /// The number of touches the event carries.
    pub touches: i32,
    /// The identifier of the event's first touch.
    pub identifier: i32,
    /// The position of the event's first touch.
    pub pos: Vec2i,
}

impl Touch {
    /// Whether the touch acts as the pointer: the event carries a touch at
    /// all, and its first touch is the primary one, whose identifier is 0.
    /// Any other touch event is ignored.
    pub open spec fn spec_is_pointer(self) -> bool {
        self.touches >= 1 && self.identifier == 0
    }

    /// Whether the touch acts as the pointer.
    pub fn is_pointer(&self) -> (accepted: bool)
        ensures
            accepted == self.spec_is_pointer(),
    {
        self.touches >= 1 && self.identifier == 0
    }
}

/// What the handler of a finished touch decided.
#[derive(Clone, Copy, Debug, PartialEq, Eq, Structural)]
pub struct TouchEnd {
    /// 1 if the touch was taken as the pointer's release, 0 if it was ignored.
    pub handled: i32,
    /// Whether the host should now ask for fullscreen display.
    pub request_fullscreen: bool,
}

/// More touches than this in the event that ends one ask for fullscreen
/// display.
pub const FULLSCREEN_TOUCHES: i32 = 2;

/// The queue after `touch` has offered it `event`: only a touch that acts as
/// the pointer is heard.
pub open spec fn after_touch(queue: Seq<Event>, touch: Touch, event: Event) -> Seq<Event> {
    if touch.spec_is_pointer() {
        queue.push(event)
    } else {
        queue
    }
}

/// What a touch handler reports to the host: 1 for a touch that acts as the
/// pointer, 0 for one that is ignored.
pub open spec fn touch_handled(touch: Touch) -> i32 {
    if touch.spec_is_pointer() {
        1
    } else {
        0
    }
}

/// Prepares `queue` for the first frame.
///
/// Where the host already knows the size of its window, the queue receives a
/// `Resize` with that size, so that the first frame sets up its camera before
/// it draws.  Where it does not, nothing is queued and the camera waits for
/// the host's first real resize.
pub fn init_event_queue(queue: &mut EventQueue, window: Option<Vec2i>)
    ensures
        final(queue)@ == match window {
            Some(size) => old(queue)@.push(Event::Resize(size)),
            None => old(queue)@,
        },
{
    match window {
        Some(size) => {
            on_resize(queue, size.x, size.y);
        },
        None => {},
    }
}

/// The window was resized to `width` by `height` pixels.  Returns 0: a resize
/// is never consumed.
pub fn on_resize(queue: &mut EventQueue, width: i32, height: i32) -> (handled: i32)
    ensures
        final(queue)@ == old(queue)@.push(Event::Resize(Vec2i { x: width, y: height })),
        handled == 0,
{
    queue.push(Event::Resize(Vec2i::new(width, height)));
    0
}

/// The mouse moved to `(x, y)`.  Returns 1: the event is consumed.
pub fn on_mouse_move(queue: &mut EventQueue, x: i32, y: i32) -> (handled: i32)
    ensures
        final(queue)@ == old(queue)@.push(Event::Move(Vec2i { x, y })),
        handled == 1,
{
    queue.push(Event::Move(Vec2i::new(x, y)));
    1
}

/// A mouse button went down at `(x, y)`.  Returns 1: the event is consumed.
pub fn on_mouse_down(queue: &mut EventQueue, x: i32, y: i32) -> (handled: i32)
    ensures
        final(queue)@ == old(queue)@.push(Event::Down(Vec2i { x, y })),
        handled == 1,
{
    queue.push(Event::Down(Vec2i::new(x, y)));
    1
}

/// A mouse button was released.  Returns 1: the event is consumed.
pub fn on_mouse_up(queue: &mut EventQueue) -> (handled: i32)
    ensures
        final(queue)@ == old(queue)@.push(Event::Up),
        handled == 1,
{
    queue.push(Event::Up);
    1
}

/// A touch moved.  A touch that acts as the pointer queues a `Move` to its
/// position; any other leaves the queue as it is.
pub fn on_touch_move(queue: &mut EventQueue, touch: Touch) -> (handled: i32)
    ensures
        final(queue)@ == after_touch(old(queue)@, touch, Event::Move(touch.pos)),
        handled == touch_handled(touch),
{
    if !touch.is_pointer() {
        return 0;
    }
    queue.push(Event::Move(touch.pos));
    1
}

/// A touch began.  A touch that acts as the pointer queues a `Down` at its
/// position; any other leaves the queue as it is.
pub fn on_touch_start(queue: &mut EventQueue, touch: Touch) -> (handled: i32)
    ensures
        final(queue)@ == after_touch(old(queue)@, touch, Event::Down(touch.pos)),
        handled == touch_handled(touch),
{
    if !touch.is_pointer() {
        return 0;
    }
    queue.push(Event::Down(touch.pos));
    1
}

/// A touch ended or was cancelled; `fullscreen` says whether the display is
/// fullscreen already.
///
/// With more than [`FULLSCREEN_TOUCHES`] touches in the event, on a display
/// that is not fullscreen, the outcome asks the host to request it, whichever
/// touch ended.  A touch that acts as the pointer queues an `Up`; any other
/// leaves the queue as it is.
pub fn on_touch_end(queue: &mut EventQueue, touch: Touch, fullscreen: bool) -> (outcome: TouchEnd)
    ensures
        final(queue)@ == after_touch(old(queue)@, touch, Event::Up),
        outcome.handled == touch_handled(touch),
        outcome.request_fullscreen == (touch.touches > FULLSCREEN_TOUCHES && !fullscreen),
{
    let request_fullscreen = touch.touches > FULLSCREEN_TOUCHES && !fullscreen;
    if !touch.is_pointer() {
        return TouchEnd { handled: 0, request_fullscreen };
    }
    queue.push(Event::Up);
    TouchEnd { handled: 1, request_fullscreen }
}

} // verus!
