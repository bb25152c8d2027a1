use boat::events::{
    init_event_queue, on_mouse_down, on_mouse_move, on_mouse_up, on_resize, on_touch_end,
    on_touch_move, on_touch_start, Event, EventQueue, Touch, TouchEnd, FULLSCREEN_TOUCHES,
};
use boat::geometry::Vec2i;

fn touch(touches: i32, identifier: i32, x: i32, y: i32) -> Touch {
    Touch { touches, identifier, pos: Vec2i::new(x, y) }
}

#[test]
fn init_queues_the_window_size() {
    let mut queue = EventQueue::new();
    init_event_queue(&mut queue, Some(Vec2i::new(1280, 720)));
    assert_eq!(queue.drain(), vec![Event::Resize(Vec2i::new(1280, 720))]);
}

#[test]
fn init_without_window_size_queues_nothing() {
    let mut queue = EventQueue::new();
    init_event_queue(&mut queue, None);
    assert!(queue.is_empty());
}

#[test]
fn init_appends_behind_what_is_queued() {
    let mut queue = EventQueue::new();
    queue.push(Event::Up);
    init_event_queue(&mut queue, Some(Vec2i::new(3, 4)));
    assert_eq!(queue.drain(), vec![Event::Up, Event::Resize(Vec2i::new(3, 4))]);
}

#[test]
fn resize_is_queued_and_not_consumed() {
    let mut queue = EventQueue::new();
    assert_eq!(on_resize(&mut queue, 800, 600), 0);
    assert_eq!(queue.drain(), vec![Event::Resize(Vec2i { x: 800, y: 600 })]);
}

#[test]
fn mouse_events_are_queued_and_consumed() {
    let mut queue = EventQueue::new();
    assert_eq!(on_mouse_down(&mut queue, 10, 20), 1);
    assert_eq!(on_mouse_move(&mut queue, -5, 7), 1);
    assert_eq!(on_mouse_up(&mut queue), 1);
    assert_eq!(
        queue.drain(),
        vec![Event::Down(Vec2i::new(10, 20)), Event::Move(Vec2i::new(-5, 7)), Event::Up]
    );
}

#[test]
fn primary_touch_acts_as_pointer() {
    let mut queue = EventQueue::new();
    assert_eq!(on_touch_start(&mut queue, touch(1, 0, 11, 12)), 1);
    assert_eq!(on_touch_move(&mut queue, touch(1, 0, 13, 14)), 1);
    let outcome = on_touch_end(&mut queue, touch(1, 0, 13, 14), false);
    assert_eq!(outcome, TouchEnd { handled: 1, request_fullscreen: false });
    assert_eq!(
        queue.drain(),
        vec![Event::Down(Vec2i::new(11, 12)), Event::Move(Vec2i::new(13, 14)), Event::Up]
    );
}

#[test]
fn other_touches_are_ignored() {
    let mut queue = EventQueue::new();
    queue.push(Event::Down(Vec2i::new(1, 1)));
    assert_eq!(on_touch_start(&mut queue, touch(2, 1, 11, 12)), 0);
    assert_eq!(on_touch_move(&mut queue, touch(2, 7, 13, 14)), 0);
    assert_eq!(on_touch_move(&mut queue, touch(2, -1, 13, 14)), 0);
    let outcome = on_touch_end(&mut queue, touch(2, 1, 13, 14), false);
    assert_eq!(outcome, TouchEnd { handled: 0, request_fullscreen: false });
    assert_eq!(queue.drain(), vec![Event::Down(Vec2i::new(1, 1))]);
}

#[test]
fn touch_event_without_touches_is_ignored() {
    let mut queue = EventQueue::new();
    assert_eq!(on_touch_start(&mut queue, touch(0, 0, 11, 12)), 0);
    assert_eq!(on_touch_move(&mut queue, touch(0, 0, 13, 14)), 0);
    assert_eq!(on_touch_move(&mut queue, touch(-3, 0, 13, 14)), 0);
    let outcome = on_touch_end(&mut queue, touch(0, 0, 13, 14), false);
    assert_eq!(outcome, TouchEnd { handled: 0, request_fullscreen: false });
    assert!(queue.is_empty());
    assert!(!touch(0, 0, 0, 0).is_pointer());
    assert!(touch(1, 0, 0, 0).is_pointer());
    assert!(!touch(1, 1, 0, 0).is_pointer());
}

#[test]
fn three_touches_ask_for_fullscreen() {
    assert_eq!(FULLSCREEN_TOUCHES, 2);
    let mut queue = EventQueue::new();
    let outcome = on_touch_end(&mut queue, touch(3, 0, 1, 2), false);
    assert_eq!(outcome, TouchEnd { handled: 1, request_fullscreen: true });
    assert_eq!(queue.drain(), vec![Event::Up]);
}

#[test]
fn fullscreen_is_asked_for_whichever_touch_ended() {
    let mut queue = EventQueue::new();
    let outcome = on_touch_end(&mut queue, touch(4, 2, 1, 2), false);
    assert_eq!(outcome, TouchEnd { handled: 0, request_fullscreen: true });
    assert!(queue.is_empty());
}

#[test]
fn fullscreen_is_not_asked_for_twice() {
    let mut queue = EventQueue::new();
    let outcome = on_touch_end(&mut queue, touch(3, 0, 1, 2), true);
    assert_eq!(outcome, TouchEnd { handled: 1, request_fullscreen: false });
}

#[test]
fn two_touches_do_not_ask_for_fullscreen() {
    let mut queue = EventQueue::new();
    let outcome = on_touch_end(&mut queue, touch(2, 0, 1, 2), false);
    assert_eq!(outcome, TouchEnd { handled: 1, request_fullscreen: false });
}
