use zest::config::Config;
use zest::reload::{Outcome, ReloadCoordinator, Signal};

fn snapshot(root: &str) -> Config {
    Config::with_root(root.to_string())
}

#[test]
fn starts_idle_with_its_snapshot() {
    let c = ReloadCoordinator::new(snapshot("/a"), 7);
    assert!(!c.is_reloading());
    assert_eq!(c.current_generation(), 7);
    assert_eq!(c.snapshot().server.root, "/a");
}

#[test]
fn reload_asks_for_the_configuration() {
    let mut c = ReloadCoordinator::new(snapshot("/a"), 0);
    assert_eq!(c.on_signal(Signal::Reload), Outcome::Load);
    assert!(c.is_reloading());
    assert_eq!(c.snapshot().server.root, "/a");
}

#[test]
fn second_reload_is_ignored_while_one_is_under_way() {
    let mut c = ReloadCoordinator::new(snapshot("/a"), 0);
    assert_eq!(c.on_signal(Signal::Reload), Outcome::Load);
    assert_eq!(c.on_signal(Signal::Reload), Outcome::Ignored);
    assert_eq!(c.on_signal(Signal::Reload), Outcome::Ignored);
    assert!(c.is_reloading());
    assert_eq!(c.current_generation(), 0);
}

#[test]
fn failed_reload_keeps_the_snapshot() {
    let mut c = ReloadCoordinator::new(snapshot("/a"), 3);
    let before = format!("{:?}", c.snapshot());
    c.on_signal(Signal::Reload);
    assert_eq!(c.on_signal(Signal::Loaded(None)), Outcome::Abandoned { exit: false });
    assert!(!c.is_reloading());
    assert_eq!(c.current_generation(), 3);
    assert_eq!(format!("{:?}", c.snapshot()), before);
}

#[test]
fn successful_reload_publishes_and_starts_a_generation() {
    let mut c = ReloadCoordinator::new(snapshot("/a"), 3);
    c.on_signal(Signal::Reload);
    assert_eq!(
        c.on_signal(Signal::Loaded(Some(snapshot("/b")))),
        Outcome::Applied { retired: 3, started: 4, exit: false }
    );
    assert!(!c.is_reloading());
    assert_eq!(c.current_generation(), 4);
    assert_eq!(c.snapshot().server.root, "/b");
}

#[test]
fn generations_grow_by_one_with_each_reload() {
    let mut c = ReloadCoordinator::new(snapshot("/a"), 0);
    for expected in 1..=5u64 {
        assert_eq!(c.on_signal(Signal::Reload), Outcome::Load);
        assert_eq!(
            c.on_signal(Signal::Loaded(Some(snapshot("/a")))),
            Outcome::Applied { retired: expected - 1, started: expected, exit: false }
        );
        assert_eq!(c.current_generation(), expected);
    }
}

#[test]
fn configuration_that_nobody_asked_for_is_ignored() {
    let mut c = ReloadCoordinator::new(snapshot("/a"), 0);
    assert_eq!(c.on_signal(Signal::Loaded(Some(snapshot("/b")))), Outcome::Ignored);
    assert_eq!(c.on_signal(Signal::Loaded(None)), Outcome::Ignored);
    assert_eq!(c.snapshot().server.root, "/a");
    assert_eq!(c.current_generation(), 0);
}

#[test]
fn termination_when_idle_is_at_once() {
    let mut c = ReloadCoordinator::new(snapshot("/a"), 0);
    assert_eq!(c.on_signal(Signal::Terminate), Outcome::Exit);
}

#[test]
fn termination_waits_for_a_reload_that_fails() {
    let mut c = ReloadCoordinator::new(snapshot("/a"), 0);
    c.on_signal(Signal::Reload);
    assert_eq!(c.on_signal(Signal::Terminate), Outcome::Ignored);
    assert_eq!(c.on_signal(Signal::Loaded(None)), Outcome::Abandoned { exit: true });
    assert_eq!(c.snapshot().server.root, "/a");
}

#[test]
fn termination_waits_for_a_reload_that_succeeds() {
    let mut c = ReloadCoordinator::new(snapshot("/a"), 0);
    c.on_signal(Signal::Reload);
    assert_eq!(c.on_signal(Signal::Terminate), Outcome::Ignored);
    assert_eq!(
        c.on_signal(Signal::Loaded(Some(snapshot("/b")))),
        Outcome::Applied { retired: 0, started: 1, exit: true }
    );
    assert_eq!(c.snapshot().server.root, "/b");
}

#[test]
fn request_to_terminate_is_forgotten_with_the_reload() {
    let mut c = ReloadCoordinator::new(snapshot("/a"), 0);
    c.on_signal(Signal::Reload);
    c.on_signal(Signal::Terminate);
    c.on_signal(Signal::Loaded(None));
    c.on_signal(Signal::Reload);
    assert_eq!(c.on_signal(Signal::Loaded(None)), Outcome::Abandoned { exit: false });
}
