use livewatch::event::{EventKind, RawEvent};
use livewatch::session::{watch, RootProbe, WatchError};

fn probe(path: &str, present: bool) -> RootProbe {
    RootProbe { path: path.to_string(), present }
}

fn ev(kind: EventKind, path: &str) -> RawEvent {
    RawEvent { kind, path: path.to_string() }
}

#[test]
fn zero_delay_is_config_error() {
    let r = watch(0, vec![probe("./src", true)]);
    assert!(matches!(r, Err(WatchError::ConfigError)));
}

#[test]
fn negative_delay_is_config_error() {
    let r = watch(-50, vec![probe("./src", true)]);
    assert!(matches!(r, Err(WatchError::ConfigError)));
}

#[test]
fn absent_root_among_three_is_invalid_root() {
    let r = watch(
        50,
        vec![probe("./a", true), probe("./missing", false), probe("./c", true)],
    );
    // No session value exists on failure: nothing is left watching ./a or ./c.
    assert!(matches!(r, Err(WatchError::InvalidRoot)));
}

#[test]
fn delay_check_precedes_root_check() {
    let r = watch(0, vec![probe("./missing", false)]);
    assert!(matches!(r, Err(WatchError::ConfigError)));
}

#[test]
fn successful_creation_is_active_and_idle() {
    let r = watch(50, vec![probe("./a", true), probe("./b", true)]);
    let mut s = r.unwrap();
    assert!(s.is_active());
    assert_eq!(s.delay_millis(), 50);
    assert_eq!(s.root_count(), 2);
    // Idle: a timer fire without any event produces no callback.
    assert!(!s.fire_timer());
}

#[test]
fn empty_root_list_is_accepted() {
    let r = watch(10, Vec::new());
    let s = r.unwrap();
    assert!(s.is_active());
    assert_eq!(s.root_count(), 0);
}

#[test]
fn one_window_many_events_one_callback() {
    let mut s = watch(50, vec![probe("./dir", true)]).unwrap();
    let mut counter: u32 = 0;
    assert!(s.handle_event(&ev(EventKind::Created, "./dir/a")));
    assert!(!s.handle_event(&ev(EventKind::Modified, "./dir/a")));
    assert!(!s.handle_event(&ev(EventKind::Removed, "./dir/b")));
    assert!(!s.handle_event(&ev(EventKind::Modified, "./dir/a")));
    if s.fire_timer() {
        counter += 1;
    }
    assert_eq!(counter, 1);
}

#[test]
fn irrelevant_events_never_fire() {
    let mut s = watch(50, vec![probe("./dir", true)]).unwrap();
    assert!(!s.handle_event(&ev(EventKind::Other, "./dir/a")));
    assert!(!s.handle_event(&ev(EventKind::Other, "./dir/b")));
    assert!(!s.fire_timer());
}

#[test]
fn steady_stream_fires_once_per_window() {
    // Events spaced at a tenth of the delay: each window sees five of
    // them, and each window fires exactly once — three windows, three
    // callbacks, never zero.
    let mut s = watch(100, vec![probe("./dir", true)]).unwrap();
    let mut counter: u32 = 0;
    for _window in 0..3 {
        for _burst in 0..5 {
            s.handle_event(&ev(EventKind::Modified, "./dir/a"));
        }
        if s.fire_timer() {
            counter += 1;
        }
    }
    assert_eq!(counter, 3);
}

#[test]
fn empty_dir_scenario_counter_stays_at_one() {
    // A single empty directory, a 50 ms delay: one file is created and
    // modified twice within the first window; the window closing at
    // 50 ms fires once. Four further quiet windows (200 ms) fire
    // nothing: the counter stays at 1.
    let mut s = watch(50, vec![probe("./empty", true)]).unwrap();
    let mut counter: u32 = 0;
    s.handle_event(&ev(EventKind::Created, "./empty/file"));
    s.handle_event(&ev(EventKind::Modified, "./empty/file"));
    s.handle_event(&ev(EventKind::Modified, "./empty/file"));
    if s.fire_timer() {
        counter += 1;
    }
    assert_eq!(counter, 1);
    for _quiet_window in 0..4 {
        if s.fire_timer() {
            counter += 1;
        }
    }
    assert_eq!(counter, 1);
}

#[test]
fn disjoint_sessions_fire_independently() {
    // Two sessions over disjoint directories: a change under the first
    // root never reaches the session watching only the second.
    let mut a = watch(50, vec![probe("./root_a", true)]).unwrap();
    let mut b = watch(50, vec![probe("./root_b", true)]).unwrap();
    let mut counter_a: u32 = 0;
    let mut counter_b: u32 = 0;
    a.handle_event(&ev(EventKind::Created, "./root_a/file"));
    if a.fire_timer() {
        counter_a += 1;
    }
    if b.fire_timer() {
        counter_b += 1;
    }
    assert_eq!(counter_a, 1);
    assert_eq!(counter_b, 0);
}

#[test]
fn no_callback_after_stop() {
    let mut s = watch(50, vec![probe("./dir", true)]).unwrap();
    s.handle_event(&ev(EventKind::Created, "./dir/a"));
    s.stop();
    assert!(!s.is_active());
    assert_eq!(s.root_count(), 0);
    assert!(!s.handle_event(&ev(EventKind::Modified, "./dir/a")));
    assert!(!s.handle_event(&ev(EventKind::Created, "./dir/b")));
    assert!(!s.fire_timer());
}

#[test]
fn stop_is_idempotent() {
    let mut s = watch(50, vec![probe("./dir", true)]).unwrap();
    s.stop();
    s.stop();
    assert!(!s.is_active());
    assert!(!s.fire_timer());
}

#[test]
fn transport_error_is_surfaced_and_changes_nothing() {
    let mut s = watch(50, vec![probe("./dir", true)]).unwrap();
    s.handle_event(&ev(EventKind::Created, "./dir/a"));
    let report = s.handle_transport_error("watched path removed".to_string());
    assert_eq!(report, "watched path removed");
    // The pending window is untouched: its close still fires, once.
    assert!(s.is_active());
    assert!(s.fire_timer());
    assert!(!s.fire_timer());
}
