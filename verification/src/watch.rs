//! Watch mode: wait until a process that already runs is gone, then tell the
//! user.

use vstd::prelude::*;
use vstd::string::*;
use crate::decimal::{decimal, push_decimal};
use crate::failure::{Failure, FailureModel};
use crate::machine::{lemma_notifications_push, notifications, Action, ActionModel, Event, EventModel, POLL_INTERVAL_MILLIS};
use crate::notification::{finished_request, NotificationRequest};
use crate::procfs::{
    dir_path, lemma_first_token, process_dir, get_process_name, record_file, record_path,
    record_tokens, resolve_name,
};

verus! {

/// What a watch that is still checking has asked for.
#[derive(Clone, Copy, Debug, PartialEq, Eq, Structural)]
pub enum CheckStage {
    /// Whether the process exists at all.
    Probing,
    /// The command-line record of the process.
    Reading,
}

/// What a watch that is waiting has asked for.
#[derive(Clone, Copy, Debug, PartialEq, Eq, Structural)]
pub enum WaitPhase {
    /// To print the line that says what is waited for.
    Announcing,
    /// Whether the process still exists.
    Probing,
    /// To let the polling interval pass.
    Sleeping,
}

/// State of a watch.
#[derive(Debug, PartialEq, Eq)]
pub enum WatchState {
    /// Nothing is known of process `pid` yet beyond what `stage` says.
    Checking { pid: u32, stage: CheckStage },
    /// Process `pid` was there and is called `name`; it is polled until it
    /// is gone.
    Waiting { pid: u32, name: String, phase: WaitPhase },
    /// The process called `name` is gone and the notification is on its way.
    NotFound { name: String },
    /// The watch has completed.
    Done,
    /// The watch has failed.
    Failed { failure: Failure },
}

/// Mathematical value of a [`WatchState`].
pub enum WatchModel {
    Checking { pid: u32, stage: CheckStage },
    Waiting { pid: u32, name: Seq<char>, phase: WaitPhase },
    NotFound { name: Seq<char> },
    Done,
    Failed { failure: FailureModel },
}

impl View for WatchState {
    type V = WatchModel;

    open spec fn view(&self) -> WatchModel {
        match self {
            WatchState::Checking { pid, stage } => WatchModel::Checking { pid: *pid, stage: *stage },
            WatchState::Waiting { pid, name, phase } => WatchModel::Waiting {
                pid: *pid,
                name: name@,
                phase: *phase,
            },
            WatchState::NotFound { name } => WatchModel::NotFound { name: name@ },
            WatchState::Done => WatchModel::Done,
            WatchState::Failed { failure } => WatchModel::Failed { failure: failure@ },
        }
    }
}

/// The line that tells the user which process is waited for.
pub open spec fn waiting_line(pid: u32, name: Seq<char>) -> Seq<char> {
    "Waiting on ["@ + decimal(pid as nat) + "] "@ + name
}

/// A watch that stops on `failure`.
pub open spec fn watch_failed(failure: FailureModel) -> (WatchModel, ActionModel) {
    (WatchModel::Failed { failure }, ActionModel::Fail { failure })
}

/// A watch of process `pid` as it begins, and the first thing it asks for.
pub open spec fn watch_start(pid: u32) -> (WatchModel, ActionModel) {
    (
        WatchModel::Checking { pid, stage: CheckStage::Probing },
        ActionModel::Probe { path: dir_path(pid) },
    )
}

/// What a watch that has learnt the command-line record of process `pid`
/// does: it waits under the name that the record gives, or fails where the
/// record gives none.
pub open spec fn watch_resolved(pid: u32, contents: Seq<char>) -> (WatchModel, ActionModel) {
    match resolve_name(pid, contents) {
        Ok(name) => (
            WatchModel::Waiting { pid, name, phase: WaitPhase::Announcing },
            ActionModel::Announce { line: waiting_line(pid, name) },
        ),
        Err(failure) => watch_failed(failure),
    }
}

/// The transition relation of a watch: the state that follows `state` on
/// `event`, and what the watch asks for next.
///
/// A watch that is done stays done, and one that has failed stays failed. In
/// any other state an event that does not answer what was asked for is a
/// failure of its own.
pub open spec fn watch_step(state: WatchModel, event: EventModel) -> (WatchModel, ActionModel) {
    match state {
        WatchModel::Checking { pid, stage: CheckStage::Probing } => match event {
            EventModel::Probed { exists: true } => (
                WatchModel::Checking { pid, stage: CheckStage::Reading },
                ActionModel::ReadRecord { path: record_path(pid) },
            ),
            EventModel::Probed { exists: false } => (WatchModel::Done, ActionModel::Finish),
            _ => watch_failed(FailureModel::OutOfTurn),
        },
        WatchModel::Checking { pid, stage: CheckStage::Reading } => match event {
            EventModel::Record { contents } => watch_resolved(pid, contents),
            EventModel::Refused { detail } => watch_failed(
                FailureModel::RecordUnreadable { pid, path: record_path(pid), detail },
            ),
            _ => watch_failed(FailureModel::OutOfTurn),
        },
        WatchModel::Waiting { pid, name, phase: WaitPhase::Probing } => match event {
            EventModel::Probed { exists: true } => (
                WatchModel::Waiting { pid, name, phase: WaitPhase::Sleeping },
                ActionModel::Sleep { millis: POLL_INTERVAL_MILLIS },
            ),
            EventModel::Probed { exists: false } => (
                WatchModel::NotFound { name },
                ActionModel::Notify { request: finished_request(name) },
            ),
            _ => watch_failed(FailureModel::OutOfTurn),
        },
        WatchModel::Waiting { pid, name, phase } => match event {
            EventModel::Completed => (
                WatchModel::Waiting { pid, name, phase: WaitPhase::Probing },
                ActionModel::Probe { path: dir_path(pid) },
            ),
            _ => watch_failed(FailureModel::OutOfTurn),
        },
        WatchModel::NotFound { name } => match event {
            EventModel::Completed => (WatchModel::Done, ActionModel::Finish),
            EventModel::Refused { detail } => watch_failed(FailureModel::DispatchFailed { detail }),
            _ => watch_failed(FailureModel::OutOfTurn),
        },
        WatchModel::Done => (WatchModel::Done, ActionModel::Finish),
        WatchModel::Failed { failure } => watch_failed(failure),
    }
}

/// A watch that stops on `failure`.
fn failed(failure: Failure) -> (stop: (WatchState, Action))
    ensures
        (stop.0@, stop.1@) == watch_failed(failure@),
{
    let reported = failure.clone();
    (WatchState::Failed { failure }, Action::Fail { failure: reported })
}

/// The line that tells the user which process is waited for.
fn waiting_message(pid: u32, name: &str) -> (line: String)
    ensures
        line@ == waiting_line(pid, name@),
{
    let mut line = String::from_str("Waiting on [");
    push_decimal(&mut line, pid);
    line.append("] ");
    line.append(name);
    line
}

/// What a watch that has learnt the command-line record of process `pid`
/// does.
fn resolved(pid: u32, contents: &str) -> (next: (WatchState, Action))
    ensures
        (next.0@, next.1@) == watch_resolved(pid, contents@),
{
    match get_process_name(pid, contents) {
        Ok(name) => {
            let line = waiting_message(pid, name.as_str());
            (
                WatchState::Waiting { pid, name, phase: WaitPhase::Announcing },
                Action::Announce { line },
            )
        },
        Err(failure) => failed(failure),
    }
}

impl WatchState {
    /// Begins a watch of process `pid`: the state it starts in and the first
    /// thing it asks for.
    pub fn start(pid: u32) -> (begin: (WatchState, Action))
        ensures
            (begin.0@, begin.1@) == watch_start(pid),
    {
        (
            WatchState::Checking { pid, stage: CheckStage::Probing },
            Action::Probe { path: process_dir(pid) },
        )
    }

    /// Whether the watch has ended, with success or without.
    pub fn is_terminal(&self) -> (ended: bool)
        ensures
            ended == (self@ is Done || self@ is Failed),
    {
        match self {
            WatchState::Done => true,
            WatchState::Failed { .. } => true,
            _ => false,
        }
    }

    /// Takes the answer to the action that the watch asked for last, and
    /// gives the state that follows and the action that the watch asks for
    /// next.
    pub fn step(self, event: Event) -> (next: (WatchState, Action))
        ensures
            (next.0@, next.1@) == watch_step(self@, event@),
    {
        match self {
            WatchState::Checking { pid, stage: CheckStage::Probing } => match event {
                Event::Probed { exists } => {
                    if exists {
                        (
                            WatchState::Checking { pid, stage: CheckStage::Reading },
                            Action::ReadRecord { path: record_file(pid) },
                        )
                    } else {
                        (WatchState::Done, Action::Finish)
                    }
                },
                _ => failed(Failure::OutOfTurn),
            },
            WatchState::Checking { pid, stage: CheckStage::Reading } => match event {
                Event::Record { contents } => resolved(pid, contents.as_str()),
                Event::Refused { detail } => failed(
                    Failure::RecordUnreadable { pid, path: record_file(pid), detail },
                ),
                _ => failed(Failure::OutOfTurn),
            },
            WatchState::Waiting { pid, name, phase: WaitPhase::Probing } => match event {
                Event::Probed { exists } => {
                    if exists {
                        (
                            WatchState::Waiting { pid, name, phase: WaitPhase::Sleeping },
                            Action::Sleep { millis: POLL_INTERVAL_MILLIS },
                        )
                    } else {
                        let request = NotificationRequest::finished(name.as_str());
                        (WatchState::NotFound { name }, Action::Notify { request })
                    }
                },
                _ => failed(Failure::OutOfTurn),
            },
            WatchState::Waiting { pid, name, phase } => match event {
                Event::Completed => (
                    WatchState::Waiting { pid, name, phase: WaitPhase::Probing },
                    Action::Probe { path: process_dir(pid) },
                ),
                _ => failed(Failure::OutOfTurn),
            },
            WatchState::NotFound { name } => match event {
                Event::Completed => (WatchState::Done, Action::Finish),
                Event::Refused { detail } => failed(Failure::DispatchFailed { detail }),
                _ => failed(Failure::OutOfTurn),
            },
            WatchState::Done => (WatchState::Done, Action::Finish),
            WatchState::Failed { failure } => failed(failure),
        }
    }
}

/// A watch of process `pid` after the driver has answered with `events`, one
/// after the other: the state that the watch has reached, and every action
/// that it has asked for up to then, the first one included.
pub open spec fn watch_trace(pid: u32, events: Seq<EventModel>) -> (WatchModel, Seq<ActionModel>)
    decreases events.len(),
{
    if events.len() == 0 {
        (watch_start(pid).0, seq![watch_start(pid).1])
    } else {
        let before = watch_trace(pid, events.drop_last());
        let next = watch_step(before.0, events.last());
        (next.0, before.1.push(next.1))
    }
}

/// The answers that a driver gives while the watched process lives: the
/// process is there, its command-line record holds `record`, the line for
/// the user is printed, and then the process is found alive `polls` times,
/// each time followed by one polling interval.
pub open spec fn live_events(record: Seq<char>, polls: nat) -> Seq<EventModel>
    decreases polls,
{
    if polls == 0 {
        seq![
            EventModel::Probed { exists: true },
            EventModel::Record { contents: record },
            EventModel::Completed,
        ]
    } else {
        live_events(record, (polls - 1) as nat).push(EventModel::Probed { exists: true }).push(
            EventModel::Completed,
        )
    }
}

/// The answers of a whole run in which the watched process lives through
/// `polls` looks, is then found gone, and the notification is taken.
pub open spec fn exit_events(record: Seq<char>, polls: nat) -> Seq<EventModel> {
    live_events(record, polls).push(EventModel::Probed { exists: false }).push(
        EventModel::Completed,
    )
}

/// One more answer moves the watch by one step and adds the action of that
/// step.
pub proof fn lemma_watch_trace_push(pid: u32, events: Seq<EventModel>, event: EventModel)
    ensures
        watch_trace(pid, events.push(event)).0 == watch_step(watch_trace(pid, events).0, event).0,
        watch_trace(pid, events.push(event)).1 == watch_trace(pid, events).1.push(
            watch_step(watch_trace(pid, events).0, event).1,
        ),
{
    assert(events.push(event).drop_last() =~= events);
}

/// Whatever the driver answers, a watch asks for at most one notification,
/// and for none before the process is found gone.
pub proof fn lemma_watch_notifies_at_most_once(pid: u32, events: Seq<EventModel>)
    ensures
        notifications(watch_trace(pid, events).1).len() <= 1,
        watch_trace(pid, events).0 is Checking || watch_trace(pid, events).0 is Waiting
            ==> notifications(watch_trace(pid, events).1).len() == 0,
    decreases events.len(),
{
    if events.len() == 0 {
        lemma_notifications_push(Seq::empty(), watch_start(pid).1);
        assert(seq![watch_start(pid).1] =~= Seq::<ActionModel>::empty().push(watch_start(pid).1));
    } else {
        lemma_watch_notifies_at_most_once(pid, events.drop_last());
        let before = watch_trace(pid, events.drop_last());
        lemma_notifications_push(before.1, watch_step(before.0, events.last()).1);
    }
}

/// A watch that is done or has failed stays as it is, and asks for no
/// further notification, whatever the driver answers afterwards.
pub proof fn lemma_watch_end_is_final(pid: u32, events: Seq<EventModel>, later: Seq<EventModel>)
    requires
        watch_trace(pid, events).0 is Done || watch_trace(pid, events).0 is Failed,
    ensures
        watch_trace(pid, events + later).0 == watch_trace(pid, events).0,
        notifications(watch_trace(pid, events + later).1) == notifications(
            watch_trace(pid, events).1,
        ),
    decreases later.len(),
{
    if later.len() == 0 {
        assert(events + later =~= events);
    } else {
        lemma_watch_end_is_final(pid, events, later.drop_last());
        let shorter = events + later.drop_last();
        assert(events + later =~= shorter.push(later.last()));
        lemma_watch_trace_push(pid, shorter, later.last());
        lemma_notifications_push(
            watch_trace(pid, shorter).1,
            watch_step(watch_trace(pid, shorter).0, later.last()).1,
        );
    }
}

/// While the watched process lives, the watch waits under the name that the
/// record gave at the start and has asked for no notification.
proof fn lemma_watch_while_alive(pid: u32, record: Seq<char>, polls: nat)
    requires
        record.len() > 0,
    ensures
        watch_trace(pid, live_events(record, polls)).0 == (WatchModel::Waiting {
            pid,
            name: record_tokens(record)[0],
            phase: WaitPhase::Probing,
        }),
        notifications(watch_trace(pid, live_events(record, polls)).1).len() == 0,
    decreases polls,
{
    lemma_first_token(record);
    if polls == 0 {
        let probed = EventModel::Probed { exists: true };
        let read = EventModel::Record { contents: record };
        let none = Seq::<EventModel>::empty();
        assert(live_events(record, 0) =~= none.push(probed).push(read).push(
            EventModel::Completed,
        ));
        lemma_watch_trace_push(pid, none, probed);
        lemma_watch_trace_push(pid, none.push(probed), read);
        lemma_watch_trace_push(pid, none.push(probed).push(read), EventModel::Completed);
    } else {
        let earlier = live_events(record, (polls - 1) as nat);
        let probed = EventModel::Probed { exists: true };
        lemma_watch_while_alive(pid, record, (polls - 1) as nat);
        lemma_watch_trace_push(pid, earlier, probed);
        lemma_watch_trace_push(pid, earlier.push(probed), EventModel::Completed);
    }
    lemma_watch_notifies_at_most_once(pid, live_events(record, polls));
}

/// A process that is there when the watch begins, whose record gives a name,
/// and that is gone after any number of looks, brings exactly one
/// notification: the one that says that the process of that name has
/// finished. The watch then completes.
pub proof fn lemma_watch_live_process(pid: u32, record: Seq<char>, polls: nat)
    requires
        record.len() > 0,
    ensures
        watch_trace(pid, exit_events(record, polls)).0 == WatchModel::Done,
        watch_trace(pid, exit_events(record, polls)).1.last() == ActionModel::Finish,
        notifications(watch_trace(pid, exit_events(record, polls)).1) == seq![
            finished_request(record_tokens(record)[0]),
        ],
{
    let alive = live_events(record, polls);
    let gone = EventModel::Probed { exists: false };
    lemma_watch_while_alive(pid, record, polls);
    lemma_watch_trace_push(pid, alive, gone);
    lemma_watch_trace_push(pid, alive.push(gone), EventModel::Completed);
    let found = watch_trace(pid, alive.push(gone));
    lemma_notifications_push(watch_trace(pid, alive).1, watch_step(watch_trace(pid, alive).0, gone).1);
    lemma_notifications_push(found.1, watch_step(found.0, EventModel::Completed).1);
    assert(notifications(watch_trace(pid, alive).1) =~= Seq::empty());
    assert(notifications(watch_trace(pid, exit_events(record, polls)).1) =~= seq![
        finished_request(record_tokens(record)[0]),
    ]);
}

/// A process that is not there when the watch begins ends the watch at once:
/// it completes, and no notification is asked for then or later.
pub proof fn lemma_watch_absent_process(pid: u32, later: Seq<EventModel>)
    ensures
        watch_trace(pid, seq![EventModel::Probed { exists: false }]).1 == seq![
            ActionModel::Probe { path: dir_path(pid) },
            ActionModel::Finish,
        ],
        watch_trace(pid, seq![EventModel::Probed { exists: false }] + later).0 == WatchModel::Done,
        notifications(
            watch_trace(pid, seq![EventModel::Probed { exists: false }] + later).1,
        ).len() == 0,
{
    let gone = EventModel::Probed { exists: false };
    let none = Seq::<EventModel>::empty();
    assert(seq![gone] =~= none.push(gone));
    lemma_watch_trace_push(pid, none, gone);
    assert(watch_trace(pid, seq![gone]).1 =~= seq![
        ActionModel::Probe { path: dir_path(pid) },
        ActionModel::Finish,
    ]);
    lemma_watch_notifies_at_most_once(pid, none);
    lemma_notifications_push(watch_trace(pid, none).1, ActionModel::Finish);
    lemma_watch_end_is_final(pid, seq![gone], later);
}

/// A command-line record without a token fails the watch with the
/// data-format failure that names the record, and no notification is asked
/// for then or later.
pub proof fn lemma_watch_empty_record(pid: u32, later: Seq<EventModel>)
    ensures
        ({
            let events = seq![
                EventModel::Probed { exists: true },
                EventModel::Record { contents: Seq::empty() },
            ];
            let failure = FailureModel::MalformedRecord { pid, path: record_path(pid) };
            &&& watch_trace(pid, events).1.last() == ActionModel::Fail { failure }
            &&& watch_trace(pid, events + later).0 == WatchModel::Failed { failure }
            &&& notifications(watch_trace(pid, events + later).1).len() == 0
        }),
{
    let probed = EventModel::Probed { exists: true };
    let read = EventModel::Record { contents: Seq::empty() };
    let none = Seq::<EventModel>::empty();
    let events = seq![probed, read];
    assert(events =~= none.push(probed).push(read));
    lemma_watch_trace_push(pid, none, probed);
    lemma_watch_trace_push(pid, none.push(probed), read);
    lemma_watch_notifies_at_most_once(pid, none.push(probed));
    lemma_notifications_push(
        watch_trace(pid, none.push(probed)).1,
        watch_step(watch_trace(pid, none.push(probed)).0, read).1,
    );
    lemma_watch_end_is_final(pid, events, later);
}

} // verus!
