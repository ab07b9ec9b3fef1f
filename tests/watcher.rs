use fthis::events::RawEvent;
use fthis::watcher::{Action, Input, StartupError, Watcher};

fn watching(path: &str, handle: i32) -> Watcher {
    let mut w = Watcher::new();
    assert_eq!(w.register_all(vec![(path.to_string(), Some(handle))]), Ok(1));
    w
}

#[test]
fn new_watcher_polls() {
    let w = Watcher::new();
    assert_eq!(w.next_action(), Action::Poll);
    assert_eq!(w.registry().len(), 0);
}

#[test]
fn one_of_two_paths_registered_continues() {
    let mut w = Watcher::new();
    let r = w.register_all(vec![
        ("/tmp/a.txt".to_string(), Some(1)),
        ("/does/not/exist".to_string(), None),
    ]);
    assert_eq!(r, Ok(1));
    assert_eq!(w.registry().resolve(1), Some("/tmp/a.txt".to_string()));
    assert_eq!(w.registry().len(), 1);
}

#[test]
fn zero_paths_aborts() {
    let mut w = Watcher::new();
    assert_eq!(w.register_all(vec![]), Err(StartupError::NoPaths));
    assert_eq!(w.registry().len(), 0);
}

#[test]
fn all_paths_failing_aborts() {
    let mut w = Watcher::new();
    let r = w.register_all(vec![("/x".to_string(), None), ("/y".to_string(), None)]);
    assert_eq!(r, Err(StartupError::NothingWatched));
}

#[test]
fn directory_event_is_ignored_without_execute() {
    let mut w = watching("/tmp", 1);
    let a = w.step(Input::Polled(vec![RawEvent { handle: 1, name: Some("a.txt".to_string()) }]));
    assert_eq!(a, Action::Ignore("a.txt".to_string()));
    let a = w.step(Input::Ignored);
    assert_eq!(a, Action::Poll);
    assert_eq!(w.registry().len(), 1);
}

#[test]
fn file_event_executes_then_rearms() {
    let mut w = watching("/tmp/a.txt", 1);
    let a = w.step(Input::Polled(vec![RawEvent { handle: 1, name: None }]));
    assert_eq!(a, Action::Execute("/tmp/a.txt".to_string()));
    // a re-arm answer before the execution completed changes nothing
    let a = w.step(Input::Rearmed(Some(9)));
    assert_eq!(a, Action::Execute("/tmp/a.txt".to_string()));
    assert_eq!(w.registry().resolve(9), None);
    let a = w.step(Input::Executed);
    assert_eq!(a, Action::Rearm("/tmp/a.txt".to_string()));
    let a = w.step(Input::Rearmed(Some(2)));
    assert_eq!(a, Action::Poll);
    assert_eq!(w.registry().resolve(2), Some("/tmp/a.txt".to_string()));
    assert_eq!(w.registry().len(), 2);
}

#[test]
fn failed_rearm_drops_the_path() {
    let mut w = watching("/tmp/a.txt", 1);
    w.step(Input::Polled(vec![RawEvent { handle: 1, name: None }]));
    w.step(Input::Executed);
    let a = w.step(Input::Rearmed(None));
    assert_eq!(a, Action::Poll);
    assert_eq!(w.registry().len(), 1);
}

#[test]
fn several_events_of_one_read_dispatch_in_order() {
    let mut w = Watcher::new();
    assert_eq!(
        w.register_all(vec![("/tmp/a.txt".to_string(), Some(1)), ("/tmp".to_string(), Some(2))]),
        Ok(2)
    );
    let a = w.step(Input::Polled(vec![
        RawEvent { handle: 2, name: Some("b".to_string()) },
        RawEvent { handle: 7, name: None },
        RawEvent { handle: 1, name: None },
    ]));
    assert_eq!(a, Action::Ignore("b".to_string()));
    assert_eq!(w.step(Input::Ignored), Action::Execute("/tmp/a.txt".to_string()));
    assert_eq!(w.step(Input::Executed), Action::Rearm("/tmp/a.txt".to_string()));
    assert_eq!(w.step(Input::Rearmed(Some(3))), Action::Poll);
}

#[test]
fn read_with_only_stale_handles_polls_again() {
    let mut w = Watcher::new();
    let a = w.step(Input::Polled(vec![RawEvent { handle: 4, name: None }]));
    assert_eq!(a, Action::Poll);
    assert_eq!(w.next_action(), Action::Poll);
}
