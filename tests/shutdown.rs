use mone::monitor::events::Event;
use mone::monitor::shutdown::{is_quit_key, ShutdownCoordinator};

#[test]
fn first_firing_emits_shutdown() {
    let mut c = ShutdownCoordinator::new();
    assert!(!c.is_cancelled());
    assert!(matches!(c.fire(), Some(Event::Shutdown)));
    assert!(c.is_cancelled());
}

#[test]
fn second_firing_is_a_no_op() {
    let mut once = ShutdownCoordinator::new();
    once.fire();
    let mut twice = ShutdownCoordinator::new();
    let first = twice.fire();
    let second = twice.fire();
    assert!(first.is_some());
    assert!(second.is_none());
    assert_eq!(once, twice);
}

#[test]
fn quit_keys() {
    assert!(is_quit_key('c', true));
    assert!(is_quit_key('q', false));
    assert!(!is_quit_key('q', true));
    assert!(!is_quit_key('c', false));
    assert!(!is_quit_key('x', false));
}
