use remote_blinky::button::{debounce_samples, Button, Debouncer, Event, STABILITY_THRESHOLD};

fn bouncy(n: usize) -> Vec<bool> {
    // Alternating levels: never two equal samples in a row.
    (0..n).map(|i| i % 2 == 0).collect()
}

fn hold(level: bool, n: usize) -> Vec<bool> {
    vec![level; n]
}

#[test]
fn short_bounce_emits_nothing() {
    // Every trace shorter than the stability window reports no event.
    for n in 0..STABILITY_THRESHOLD as usize {
        assert_eq!(debounce_samples(false, &bouncy(n)), None);
        assert_eq!(debounce_samples(true, &bouncy(n)), None);
        assert_eq!(debounce_samples(false, &hold(true, n)), None);
    }
}

#[test]
fn long_bounce_still_emits_nothing() {
    // A long trace that keeps bouncing never settles either.
    assert_eq!(debounce_samples(false, &bouncy(100)), None);
}

#[test]
fn held_level_settles_once() {
    // Ten consecutive samples at the candidate level settle on it.
    assert_eq!(debounce_samples(false, &hold(false, 10)), Some(false));
    assert_eq!(debounce_samples(true, &hold(true, 10)), Some(true));
    // Nine are not enough.
    assert_eq!(debounce_samples(false, &hold(false, 9)), None);
}

#[test]
fn settle_after_bounce() {
    // Bounce for a while, then hold low: the trace settles low. The bounce
    // ends high, so settling takes the sample that sets the low candidate
    // plus ten confirming samples.
    let mut trace = bouncy(7);
    trace.extend(hold(false, 10));
    assert_eq!(debounce_samples(true, &trace), None);
    trace.push(false);
    assert_eq!(debounce_samples(true, &trace), Some(false));
}

#[test]
fn boundary_nine_then_flip_then_ten() {
    // Nine stable samples, one differing sample, then ten stable ones:
    // nothing is reported until the second run completes, then exactly one
    // level comes out.
    let mut trace = hold(false, 9);
    trace.push(true);
    trace.extend(hold(true, 9));
    assert_eq!(debounce_samples(false, &trace), None);
    trace.push(true);
    assert_eq!(debounce_samples(false, &trace), Some(true));
}

#[test]
fn debouncer_counts_and_resets() {
    let mut d = Debouncer::new(true);
    for _ in 0..9 {
        d.sample(true);
    }
    assert!(!d.is_stable());
    d.sample(false);
    assert!(!d.is_stable());
    for _ in 0..10 {
        d.sample(false);
    }
    assert!(d.is_stable());
    assert_eq!(d.settled_event(), Event::Pushed);
}

#[test]
fn poll_without_edge_reports_nothing() {
    // No pending hardware edge: the poll returns None at once, whatever the
    // line would have shown, and the latch is untouched.
    let mut b = Button::new();
    assert_eq!(b.debounced_event(true, &hold(true, 50)), None);
    assert_eq!(b.debounced_event(false, &bouncy(50)), None);
    assert!(!b.has_been_pushed());
    assert!(!b.has_been_released());
}

#[test]
fn poll_with_edge_maps_low_to_pushed() {
    let mut b = Button::new();
    b.record_push_edge();
    // Active-low wiring: a line that settles low means Pushed.
    assert_eq!(b.debounced_event(false, &hold(false, 10)), Some(Event::Pushed));
    // Edges that arrived during the window were discarded with the clear.
    assert!(!b.has_been_pushed());
    assert!(!b.has_been_released());
}

#[test]
fn poll_with_edge_maps_high_to_released() {
    let mut b = Button::new();
    b.record_release_edge();
    assert_eq!(b.debounced_event(true, &hold(true, 10)), Some(Event::Released));
    assert!(!b.has_been_pushed());
    assert!(!b.has_been_released());
}

#[test]
fn poll_with_still_bouncing_trace_keeps_edge_pending() {
    let mut b = Button::new();
    b.record_push_edge();
    assert_eq!(b.debounced_event(false, &bouncy(30)), None);
    // The edge is still pending: a later, quieter poll succeeds.
    assert!(b.has_been_pushed());
    assert_eq!(b.debounced_event(false, &hold(false, 10)), Some(Event::Pushed));
}

#[test]
fn latch_is_monotonic_until_cleared() {
    let mut b = Button::new();
    b.record_push_edge();
    assert!(b.has_been_pushed());
    assert!(!b.has_been_released());
    // Recording the other direction leaves the first flag set.
    b.record_release_edge();
    assert!(b.has_been_pushed());
    assert!(b.has_been_released());
    assert!(b.is_event_triggered());
    // Clearing is all-or-nothing: both flags drop together.
    b.clear_events();
    assert!(!b.has_been_pushed());
    assert!(!b.has_been_released());
    assert!(!b.is_event_triggered());
}
