use boat::events::{init_event_queue, on_mouse_down, on_mouse_move, on_mouse_up, Event, EventQueue};
use boat::frame::{begin_frame, frame_time, NANOS_PER_SEC};
use boat::geometry::{DragVector, Vec2i};
use boat::intent::Throttle;
use boat::mapper::Controls;

#[test]
fn first_frame_sets_the_viewport_before_anything_is_drawn() {
    let mut queue = EventQueue::new();
    let mut controls = Controls::new();
    init_event_queue(&mut queue, Some(Vec2i::new(800, 600)));
    let resized = begin_frame(&mut queue, &mut controls);
    assert_eq!(resized, Some(Vec2i::new(800, 600)));
    assert_eq!(controls.viewport, Some(Vec2i::new(800, 600)));
    assert!(queue.is_empty());
}

#[test]
fn frame_takes_the_queued_events_in_order() {
    let mut queue = EventQueue::new();
    let mut controls = Controls::new();
    on_mouse_down(&mut queue, 100, 100);
    on_mouse_move(&mut queue, 100, 200);
    on_mouse_up(&mut queue);
    let resized = begin_frame(&mut queue, &mut controls);
    assert_eq!(resized, None);
    assert!(queue.is_empty());
    assert_eq!(controls.drag, None);
    assert_eq!(controls.intent.heading, Some(DragVector { dx: 0, dy: 100 }));
    assert_eq!(controls.intent.speed, Throttle::Partial { dist_sq: 10000 });
}

#[test]
fn frame_with_an_empty_queue_changes_nothing() {
    let mut queue = EventQueue::new();
    let mut controls = Controls::new();
    queue.push(Event::Down(Vec2i::new(0, 0)));
    queue.push(Event::Move(Vec2i::new(-75, 0)));
    begin_frame(&mut queue, &mut controls);
    let settled = controls;
    for _ in 0..300 {
        assert_eq!(begin_frame(&mut queue, &mut controls), None);
        assert_eq!(controls, settled);
    }
    assert_eq!(controls.intent.speed, Throttle::Partial { dist_sq: 5625 });
}

#[test]
fn events_queued_during_a_frame_wait_for_the_next() {
    let mut queue = EventQueue::new();
    let mut controls = Controls::new();
    queue.push(Event::Down(Vec2i::new(0, 0)));
    begin_frame(&mut queue, &mut controls);
    queue.push(Event::Move(Vec2i::new(0, 200)));
    assert_eq!(controls.intent.speed, Throttle::Idle);
    begin_frame(&mut queue, &mut controls);
    assert_eq!(controls.intent.speed, Throttle::Full);
}

#[test]
fn frame_time_is_the_time_between_start_and_end() {
    assert_eq!(NANOS_PER_SEC, 1_000_000_000);
    assert_eq!(frame_time(1_000, 16_667_000), Some(16_666_000));
    assert_eq!(frame_time(0, 1), Some(1));
    assert_eq!(frame_time(0, 999_999_999), Some(999_999_999));
    let millis = frame_time(5_000_000, 21_700_000).unwrap() as f64 / 1_000_000.0;
    assert_eq!(format!("frame time: {:.1}ms", millis), "frame time: 16.7ms");
}

#[test]
fn frame_time_drops_whole_seconds() {
    assert_eq!(frame_time(0, 1_000_000_000), Some(0));
    assert_eq!(frame_time(5, 1_500_000_005), Some(500_000_000));
    assert_eq!(frame_time(0, u64::MAX), Some(709_551_615));
}

#[test]
fn frame_whose_clock_did_not_advance_reports_nothing() {
    assert_eq!(frame_time(10, 10), None);
    assert_eq!(frame_time(10, 9), None);
    assert_eq!(frame_time(u64::MAX, 0), None);
    assert_eq!(frame_time(0, 0), None);
}
