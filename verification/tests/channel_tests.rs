use per_spatium::events::{Channel, Cursor};

#[test]
fn drain_returns_events_in_publication_order() {
    let mut ch: Channel<u32> = Channel::new();
    let mut c = Cursor::new();
    ch.publish(1);
    ch.publish(2);
    ch.publish(3);
    let out = ch.drain(&mut c);
    assert_eq!(out, vec![1, 2, 3]);
    let out2 = ch.drain(&mut c);
    assert!(out2.is_empty());
}

#[test]
fn independent_cursors_each_see_every_event() {
    let mut ch: Channel<u32> = Channel::new();
    let mut a = Cursor::new();
    let mut b = Cursor::new();
    ch.publish(7);
    let seen_a = ch.drain(&mut a);
    ch.publish(8);
    let seen_a2 = ch.drain(&mut a);
    let seen_b = ch.drain(&mut b);
    assert_eq!(seen_a, vec![7]);
    assert_eq!(seen_a2, vec![8]);
    assert_eq!(seen_b, vec![7, 8]);
}

#[test]
fn events_survive_exactly_one_tick_boundary() {
    let mut ch: Channel<u32> = Channel::new();
    let mut late = Cursor::new();
    ch.publish(1);
    ch.advance_tick();
    // one boundary passed: a reader that starts now still sees the event
    let seen = ch.drain(&mut late);
    assert_eq!(seen, vec![1]);

    let mut later = Cursor::new();
    ch.publish(2);
    ch.advance_tick();
    ch.advance_tick();
    // two boundaries passed: both events are gone, the cursor is clamped
    later.at = 0;
    let seen2 = ch.drain(&mut later);
    assert!(seen2.is_empty());
}

#[test]
fn late_cursor_is_clamped_to_retained_window() {
    let mut ch: Channel<u32> = Channel::new();
    ch.publish(1);
    ch.publish(2);
    ch.advance_tick();
    ch.publish(3);
    ch.advance_tick();
    // events 1 and 2 were dropped; a fresh cursor sees only 3
    let mut c = Cursor::new();
    let seen = ch.drain(&mut c);
    assert_eq!(seen, vec![3]);
}
