use proc_notify::failure::{Failure, FailureKind};
use proc_notify::machine::{Action, Event, POLL_INTERVAL_MILLIS};
use proc_notify::notification::{NotificationRequest, Urgency};
use proc_notify::watch::{CheckStage, WaitPhase, WatchState};

/// Drives a watch of `pid` with `events` and gives back the state reached and
/// every action asked for, the first included.
fn run(pid: u32, events: Vec<Event>) -> (WatchState, Vec<Action>) {
    let (mut state, first) = WatchState::start(pid);
    let mut actions = vec![first];
    for event in events {
        let (next, action) = state.step(event);
        state = next;
        actions.push(action);
    }
    (state, actions)
}

fn notifications(actions: &[Action]) -> Vec<&NotificationRequest> {
    let mut found = Vec::new();
    for action in actions {
        if let Action::Notify { request } = action {
            found.push(request);
        }
    }
    found
}

fn live_run(record: &str, polls: usize) -> Vec<Event> {
    let mut events = vec![
        Event::Probed { exists: true },
        Event::Record { contents: String::from(record) },
        Event::Completed,
    ];
    for _ in 0..polls {
        events.push(Event::Probed { exists: true });
        events.push(Event::Completed);
    }
    events.push(Event::Probed { exists: false });
    events.push(Event::Completed);
    events
}

#[test]
fn watch_begins_by_probing_the_process_directory() {
    let (state, action) = WatchState::start(4242);
    assert_eq!(state, WatchState::Checking { pid: 4242, stage: CheckStage::Probing });
    assert_eq!(action, Action::Probe { path: String::from("/proc/4242") });
    assert!(!state.is_terminal());
    assert!(!action.is_final());
}

#[test]
fn watch_of_absent_process_exits_cleanly_without_notification() {
    let (state, actions) = run(999999, vec![Event::Probed { exists: false }]);
    assert_eq!(state, WatchState::Done);
    assert!(state.is_terminal());
    assert_eq!(
        actions,
        vec![Action::Probe { path: String::from("/proc/999999") }, Action::Finish]
    );
    assert!(actions[1].is_final());
    assert!(notifications(&actions).is_empty());
}

#[test]
fn watch_reads_the_record_of_a_process_that_exists() {
    let (state, actions) = run(77, vec![Event::Probed { exists: true }]);
    assert_eq!(state, WatchState::Checking { pid: 77, stage: CheckStage::Reading });
    assert_eq!(actions[1], Action::ReadRecord { path: String::from("/proc/77/cmdline") });
}

#[test]
fn watch_announces_pid_and_name() {
    let (state, actions) = run(
        77,
        vec![
            Event::Probed { exists: true },
            Event::Record { contents: String::from("sleep\x0030\0") },
        ],
    );
    assert_eq!(
        state,
        WatchState::Waiting { pid: 77, name: String::from("sleep"), phase: WaitPhase::Announcing }
    );
    assert_eq!(actions[2], Action::Announce { line: String::from("Waiting on [77] sleep") });
}

#[test]
fn watch_polls_every_quarter_second() {
    assert_eq!(POLL_INTERVAL_MILLIS, 250);
    let (state, actions) = run(
        77,
        vec![
            Event::Probed { exists: true },
            Event::Record { contents: String::from("sleep\x0030\0") },
            Event::Completed,
            Event::Probed { exists: true },
            Event::Completed,
        ],
    );
    assert_eq!(
        state,
        WatchState::Waiting { pid: 77, name: String::from("sleep"), phase: WaitPhase::Probing }
    );
    assert_eq!(actions[3], Action::Probe { path: String::from("/proc/77") });
    assert_eq!(actions[4], Action::Sleep { millis: 250 });
    assert_eq!(actions[5], Action::Probe { path: String::from("/proc/77") });
}

#[test]
fn watch_notifies_once_when_the_process_is_gone_at_the_first_look() {
    let (state, actions) = run(5, live_run("make\0-j8\0", 0));
    assert_eq!(state, WatchState::Done);
    assert_eq!(actions.last(), Some(&Action::Finish));
    let sent = notifications(&actions);
    assert_eq!(sent.len(), 1);
    assert_eq!(sent[0].summary, "make Finished");
    assert_eq!(sent[0].urgency, Urgency::Critical);
    assert_eq!(sent[0].body, "The command has terminated");
}

#[test]
fn watch_notifies_once_however_long_the_process_runs() {
    for polls in [1usize, 2, 17, 400] {
        let (state, actions) = run(5, live_run("make\0-j8\0", polls));
        assert_eq!(state, WatchState::Done);
        assert_eq!(actions.len(), 6 + 2 * polls);
        let sent = notifications(&actions);
        assert_eq!(sent.len(), 1);
        assert_eq!(*sent[0], NotificationRequest::finished("make"));
    }
}

#[test]
fn watch_is_in_not_found_while_the_notification_is_on_its_way() {
    let mut events = live_run("make\0", 1);
    events.pop();
    let (state, actions) = run(5, events);
    assert_eq!(state, WatchState::NotFound { name: String::from("make") });
    assert!(!state.is_terminal());
    assert_eq!(
        actions.last(),
        Some(&Action::Notify { request: NotificationRequest::finished("make") })
    );
}

#[test]
fn watch_aborts_on_empty_record_without_notification() {
    let (state, actions) = run(
        31,
        vec![Event::Probed { exists: true }, Event::Record { contents: String::new() }],
    );
    let failure = Failure::MalformedRecord { pid: 31, path: String::from("/proc/31/cmdline") };
    assert_eq!(failure.kind(), FailureKind::DataFormat);
    assert_eq!(actions.last(), Some(&Action::Fail { failure: failure.clone() }));
    assert!(actions[2].is_final());
    assert_eq!(state, WatchState::Failed { failure });
    assert!(state.is_terminal());
    assert!(notifications(&actions).is_empty());
}

#[test]
fn watch_fails_when_the_record_cannot_be_read() {
    let (state, actions) = run(
        31,
        vec![
            Event::Probed { exists: true },
            Event::Refused { detail: String::from("No such file or directory (os error 2)") },
        ],
    );
    let failure = Failure::RecordUnreadable {
        pid: 31,
        path: String::from("/proc/31/cmdline"),
        detail: String::from("No such file or directory (os error 2)"),
    };
    assert_eq!(failure.kind(), FailureKind::Io);
    assert_eq!(actions.last(), Some(&Action::Fail { failure: failure.clone() }));
    assert_eq!(state, WatchState::Failed { failure });
    assert!(notifications(&actions).is_empty());
}

#[test]
fn watch_fails_when_the_notification_is_not_taken() {
    let mut events = live_run("make\0", 2);
    events.pop();
    events.push(Event::Refused { detail: String::from("no notification daemon") });
    let (state, actions) = run(5, events);
    let failure = Failure::DispatchFailed { detail: String::from("no notification daemon") };
    assert_eq!(actions.last(), Some(&Action::Fail { failure: failure.clone() }));
    assert_eq!(state, WatchState::Failed { failure });
    assert_eq!(notifications(&actions).len(), 1);
}

#[test]
fn watch_that_is_done_stays_done() {
    let mut events = live_run("make\0", 1);
    events.push(Event::Probed { exists: false });
    events.push(Event::Completed);
    events.push(Event::Record { contents: String::from("x") });
    let (state, actions) = run(5, events);
    assert_eq!(state, WatchState::Done);
    assert_eq!(actions[actions.len() - 3..], [Action::Finish, Action::Finish, Action::Finish]);
    assert_eq!(notifications(&actions).len(), 1);
}

#[test]
fn watch_that_has_failed_stays_failed() {
    let (state, actions) = run(
        31,
        vec![
            Event::Probed { exists: true },
            Event::Record { contents: String::new() },
            Event::Probed { exists: false },
            Event::Completed,
        ],
    );
    let failure = Failure::MalformedRecord { pid: 31, path: String::from("/proc/31/cmdline") };
    assert_eq!(actions[3], Action::Fail { failure: failure.clone() });
    assert_eq!(actions[4], Action::Fail { failure: failure.clone() });
    assert_eq!(state, WatchState::Failed { failure });
    assert!(notifications(&actions).is_empty());
}

#[test]
fn watch_rejects_an_event_out_of_turn() {
    let (state, actions) = run(9, vec![Event::Completed]);
    assert_eq!(state, WatchState::Failed { failure: Failure::OutOfTurn });
    assert_eq!(actions.last(), Some(&Action::Fail { failure: Failure::OutOfTurn }));

    let (state, _) = run(9, vec![Event::Probed { exists: true }, Event::Exited { success: true }]);
    assert_eq!(state, WatchState::Failed { failure: Failure::OutOfTurn });

    let (state, actions) = run(
        9,
        vec![
            Event::Probed { exists: true },
            Event::Record { contents: String::from("a") },
            Event::Probed { exists: false },
        ],
    );
    assert_eq!(state, WatchState::Failed { failure: Failure::OutOfTurn });
    assert!(notifications(&actions).is_empty());

    let mut events = live_run("a", 0);
    events.pop();
    events.push(Event::Probed { exists: false });
    let (state, actions) = run(9, events);
    assert_eq!(state, WatchState::Failed { failure: Failure::OutOfTurn });
    assert_eq!(notifications(&actions).len(), 1);
}
