use livewatch::coalescer::Coalescer;
use livewatch::event::{kind_is_relevant, EventKind};

#[test]
fn relevant_kinds_are_exactly_create_modify_remove() {
    assert!(kind_is_relevant(&EventKind::Created));
    assert!(kind_is_relevant(&EventKind::Modified));
    assert!(kind_is_relevant(&EventKind::Removed));
    assert!(!kind_is_relevant(&EventKind::Other));
}

#[test]
fn first_relevant_event_starts_the_timer() {
    let mut c = Coalescer::new();
    assert!(c.on_event(&EventKind::Created));
    // Further events merge into the open window without a new timer.
    assert!(!c.on_event(&EventKind::Modified));
    assert!(!c.on_event(&EventKind::Removed));
}

#[test]
fn irrelevant_event_starts_no_timer() {
    let mut c = Coalescer::new();
    assert!(!c.on_event(&EventKind::Other));
    // The window never opened, so its close fires nothing.
    assert!(!c.on_timer());
}

#[test]
fn window_fires_once_then_returns_to_idle() {
    let mut c = Coalescer::new();
    c.on_event(&EventKind::Modified);
    c.on_event(&EventKind::Modified);
    assert!(c.on_timer());
    assert!(!c.on_timer());
    // A fresh window after the fire opens and fires again.
    assert!(c.on_event(&EventKind::Removed));
    assert!(c.on_timer());
}

#[test]
fn empty_window_never_fires() {
    let mut c = Coalescer::new();
    assert!(!c.on_timer());
    assert!(!c.on_timer());
}
