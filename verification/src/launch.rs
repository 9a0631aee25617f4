//! Launch mode: run a command, wait until it has exited, then tell the user
//! how it went.

use vstd::prelude::*;
use vstd::string::*;
use crate::failure::{Failure, FailureModel};
use crate::machine::{
    lemma_notifications_push, lemma_spawns_push, notifications, spawns, Action, ActionModel, Event,
    EventModel,
};
use crate::notification::{exit_request, NotificationRequest};

verus! {

/// State of a launch.
#[derive(Debug, PartialEq, Eq)]
pub enum LaunchState {
    /// The line that says what will be run is being printed; nothing has
    /// been looked at yet.
    Announcing { command: Vec<String> },
    /// The program called `name` runs.
    Running { name: String },
    /// The program has exited and the notification is on its way.
    Reporting,
    /// The launch has completed.
    Done,
    /// The launch has failed.
    Failed { failure: Failure },
}

/// Mathematical value of a [`LaunchState`].
pub enum LaunchModel {
    Announcing { command: Seq<Seq<char>> },
    Running { name: Seq<char> },
    Reporting,
    Done,
    Failed { failure: FailureModel },
}

impl View for LaunchState {
    type V = LaunchModel;

    open spec fn view(&self) -> LaunchModel {
        match self {
            LaunchState::Announcing { command } => LaunchModel::Announcing {
                command: command.deep_view(),
            },
            LaunchState::Running { name } => LaunchModel::Running { name: name@ },
            LaunchState::Reporting => LaunchModel::Reporting,
            LaunchState::Done => LaunchModel::Done,
            LaunchState::Failed { failure } => LaunchModel::Failed { failure: failure@ },
        }
    }
}

/// The words in order, with one space between each two.
pub open spec fn join_words(words: Seq<Seq<char>>) -> Seq<char>
    decreases words.len(),
{
    if words.len() == 0 {
        Seq::empty()
    } else if words.len() == 1 {
        words[0]
    } else {
        join_words(words.drop_last()) + " "@ + words.last()
    }
}

/// The line that tells the user what is run.
pub open spec fn running_line(command: Seq<Seq<char>>) -> Seq<char> {
    "Running Command: "@ + join_words(command)
}

/// A launch that stops on `failure`.
pub open spec fn launch_failed(failure: FailureModel) -> (LaunchModel, ActionModel) {
    (LaunchModel::Failed { failure }, ActionModel::Fail { failure })
}

/// A launch of `command` as it begins, and the first thing it asks for.
pub open spec fn launch_start(command: Seq<Seq<char>>) -> (LaunchModel, ActionModel) {
    (LaunchModel::Announcing { command }, ActionModel::Announce { line: running_line(command) })
}

/// What a launch does with `command` once the line for the user is printed:
/// it fails where the command is empty, and else asks for the first word to
/// be run with the other words as its arguments.
pub open spec fn launch_spawn(command: Seq<Seq<char>>) -> (LaunchModel, ActionModel) {
    if command.len() == 0 {
        launch_failed(FailureModel::EmptyCommand)
    } else {
        (
            LaunchModel::Running { name: command[0] },
            ActionModel::Spawn { program: command[0], arguments: command.skip(1) },
        )
    }
}

/// The transition relation of a launch: the state that follows `state` on
/// `event`, and what the launch asks for next.
///
/// A launch that is done stays done, and one that has failed stays failed.
/// In any other state an event that does not answer what was asked for is a
/// failure of its own.
pub open spec fn launch_step(state: LaunchModel, event: EventModel) -> (LaunchModel, ActionModel) {
    match state {
        LaunchModel::Announcing { command } => match event {
            EventModel::Completed => launch_spawn(command),
            _ => launch_failed(FailureModel::OutOfTurn),
        },
        LaunchModel::Running { name } => match event {
            EventModel::Exited { success } => (
                LaunchModel::Reporting,
                ActionModel::Notify { request: exit_request(name, success) },
            ),
            EventModel::Refused { detail } => launch_failed(
                FailureModel::SpawnFailed { program: name, detail },
            ),
            _ => launch_failed(FailureModel::OutOfTurn),
        },
        LaunchModel::Reporting => match event {
            EventModel::Completed => (LaunchModel::Done, ActionModel::Finish),
            EventModel::Refused { detail } => launch_failed(FailureModel::DispatchFailed { detail }),
            _ => launch_failed(FailureModel::OutOfTurn),
        },
        LaunchModel::Done => (LaunchModel::Done, ActionModel::Finish),
        LaunchModel::Failed { failure } => launch_failed(failure),
    }
}

/// A launch that stops on `failure`.
fn failed(failure: Failure) -> (stop: (LaunchState, Action))
    ensures
        (stop.0@, stop.1@) == launch_failed(failure@),
{
    let reported = failure.clone();
    (LaunchState::Failed { failure }, Action::Fail { failure: reported })
}

/// The words in order, with one space between each two.
pub fn join(words: &Vec<String>) -> (line: String)
    ensures
        line@ == join_words(words.deep_view()),
{
    let mut line = String::new();
    let mut done: usize = 0;
    while done < words.len()
        invariant
            done <= words.len(),
            line@ == join_words(words.deep_view().take(done as int)),
        decreases words.len() - done,
    {
        let ghost before = words.deep_view().take(done as int);
        let ghost after = words.deep_view().take(done + 1);
        if done > 0 {
            line.append(" ");
        }
        line.append(words[done].as_str());
        proof {
            assert(after.drop_last() =~= before);
            assert(after.last() == words[done as int]@);
            if done == 0 {
                assert(line@ =~= after[0]);
            }
        }
        done = done + 1;
    }
    assert(words.deep_view().take(done as int) =~= words.deep_view());
    line
}

/// The line that tells the user what is run.
fn running_message(command: &Vec<String>) -> (line: String)
    ensures
        line@ == running_line(command.deep_view()),
{
    String::from_str("Running Command: ").concat(join(command).as_str())
}

/// What a launch does with `command` once the line for the user is printed.
fn spawn(command: Vec<String>) -> (next: (LaunchState, Action))
    ensures
        (next.0@, next.1@) == launch_spawn(command.deep_view()),
{
    if command.len() == 0 {
        return failed(Failure::EmptyCommand);
    }
    let mut arguments = command;
    let program = arguments.remove(0);
    let name = program.clone();
    assert(arguments.deep_view() =~= command.deep_view().skip(1));
    (LaunchState::Running { name }, Action::Spawn { program, arguments })
}

impl LaunchState {
    /// Begins a launch of `command`, the program first and then its
    /// arguments: the state it starts in and the first thing it asks for.
    pub fn start(command: Vec<String>) -> (begin: (LaunchState, Action))
        ensures
            (begin.0@, begin.1@) == launch_start(command.deep_view()),
    {
        let line = running_message(&command);
        (LaunchState::Announcing { command }, Action::Announce { line })
    }

    /// Whether the launch has ended, with success or without.
    pub fn is_terminal(&self) -> (ended: bool)
        ensures
            ended == (self@ is Done || self@ is Failed),
    {
        match self {
            LaunchState::Done => true,
            LaunchState::Failed { .. } => true,
            _ => false,
        }
    }

    /// Takes the answer to the action that the launch asked for last, and
    /// gives the state that follows and the action that the launch asks for
    /// next.
    pub fn step(self, event: Event) -> (next: (LaunchState, Action))
        ensures
            (next.0@, next.1@) == launch_step(self@, event@),
    {
        match self {
            LaunchState::Announcing { command } => match event {
                Event::Completed => spawn(command),
                _ => failed(Failure::OutOfTurn),
            },
            LaunchState::Running { name } => match event {
                Event::Exited { success } => {
                    let request = NotificationRequest::exited(name.as_str(), success);
                    (LaunchState::Reporting, Action::Notify { request })
                },
                Event::Refused { detail } => failed(Failure::SpawnFailed { program: name, detail }),
                _ => failed(Failure::OutOfTurn),
            },
            LaunchState::Reporting => match event {
                Event::Completed => (LaunchState::Done, Action::Finish),
                Event::Refused { detail } => failed(Failure::DispatchFailed { detail }),
                _ => failed(Failure::OutOfTurn),
            },
            LaunchState::Done => (LaunchState::Done, Action::Finish),
            LaunchState::Failed { failure } => failed(failure),
        }
    }
}

/// A launch of `command` after the driver has answered with `events`, one
/// after the other: the state that the launch has reached, and every action
/// that it has asked for up to then, the first one included.
pub open spec fn launch_trace(command: Seq<Seq<char>>, events: Seq<EventModel>) -> (
    LaunchModel,
    Seq<ActionModel>,
)
    decreases events.len(),
{
    if events.len() == 0 {
        (launch_start(command).0, seq![launch_start(command).1])
    } else {
        let before = launch_trace(command, events.drop_last());
        let next = launch_step(before.0, events.last());
        (next.0, before.1.push(next.1))
    }
}

/// The answers of a run in which the line for the user is printed, the
/// program starts and exits, with success or without, and the notification
/// is taken.
pub open spec fn exit_events(success: bool) -> Seq<EventModel> {
    seq![EventModel::Completed, EventModel::Exited { success }, EventModel::Completed]
}

/// One more answer moves the launch by one step and adds the action of that
/// step.
pub proof fn lemma_launch_trace_push(
    command: Seq<Seq<char>>,
    events: Seq<EventModel>,
    event: EventModel,
)
    ensures
        launch_trace(command, events.push(event)).0 == launch_step(
            launch_trace(command, events).0,
            event,
        ).0,
        launch_trace(command, events.push(event)).1 == launch_trace(command, events).1.push(
            launch_step(launch_trace(command, events).0, event).1,
        ),
{
    assert(events.push(event).drop_last() =~= events);
}

/// A launch has asked for nothing but to print a line when it begins.
proof fn lemma_launch_begins_quietly(command: Seq<Seq<char>>)
    ensures
        notifications(launch_trace(command, Seq::empty()).1).len() == 0,
        spawns(launch_trace(command, Seq::empty()).1) == 0,
{
    let first = launch_start(command).1;
    assert(seq![first] =~= Seq::<ActionModel>::empty().push(first));
    lemma_notifications_push(Seq::empty(), first);
    lemma_spawns_push(Seq::empty(), first);
}

/// Whatever the driver answers, a launch starts at most one program and asks
/// for at most one notification, and for none before the program has exited.
pub proof fn lemma_launch_notifies_at_most_once(command: Seq<Seq<char>>, events: Seq<EventModel>)
    ensures
        spawns(launch_trace(command, events).1) <= 1,
        notifications(launch_trace(command, events).1).len() <= 1,
        launch_trace(command, events).0 is Announcing ==> spawns(
            launch_trace(command, events).1,
        ) == 0,
        launch_trace(command, events).0 is Announcing || launch_trace(command, events).0 is Running
            ==> notifications(launch_trace(command, events).1).len() == 0,
    decreases events.len(),
{
    if events.len() == 0 {
        lemma_launch_begins_quietly(command);
    } else {
        lemma_launch_notifies_at_most_once(command, events.drop_last());
        let before = launch_trace(command, events.drop_last());
        lemma_notifications_push(before.1, launch_step(before.0, events.last()).1);
        lemma_spawns_push(before.1, launch_step(before.0, events.last()).1);
    }
}

/// A launch that is done or has failed stays as it is, starts no program and
/// asks for no further notification, whatever the driver answers afterwards.
pub proof fn lemma_launch_end_is_final(
    command: Seq<Seq<char>>,
    events: Seq<EventModel>,
    later: Seq<EventModel>,
)
    requires
        launch_trace(command, events).0 is Done || launch_trace(command, events).0 is Failed,
    ensures
        launch_trace(command, events + later).0 == launch_trace(command, events).0,
        notifications(launch_trace(command, events + later).1) == notifications(
            launch_trace(command, events).1,
        ),
        spawns(launch_trace(command, events + later).1) == spawns(launch_trace(command, events).1),
    decreases later.len(),
{
    if later.len() == 0 {
        assert(events + later =~= events);
    } else {
        lemma_launch_end_is_final(command, events, later.drop_last());
        let shorter = events + later.drop_last();
        assert(events + later =~= shorter.push(later.last()));
        lemma_launch_trace_push(command, shorter, later.last());
        let action = launch_step(launch_trace(command, shorter).0, later.last()).1;
        lemma_notifications_push(launch_trace(command, shorter).1, action);
        lemma_spawns_push(launch_trace(command, shorter).1, action);
    }
}

/// A command that is not empty, whose program starts and exits, brings
/// exactly one program start and exactly one notification: the one for
/// success where the program exited with success, the one for failure where
/// it did not, each under the first word of the command. The launch then
/// completes, however the program exited.
pub proof fn lemma_launch_reports_exit(command: Seq<Seq<char>>, success: bool)
    requires
        command.len() > 0,
    ensures
        launch_trace(command, exit_events(success)).0 == LaunchModel::Done,
        launch_trace(command, exit_events(success)).1.last() == ActionModel::Finish,
        spawns(launch_trace(command, exit_events(success)).1) == 1,
        notifications(launch_trace(command, exit_events(success)).1) == seq![
            exit_request(command[0], success),
        ],
        exit_request(command[0], success).summary == command[0] + (if success {
            " Success"@
        } else {
            " FAIL"@
        }),
{
    let none = Seq::<EventModel>::empty();
    let printed = none.push(EventModel::Completed);
    let exited = printed.push(EventModel::Exited { success });
    assert(exit_events(success) =~= exited.push(EventModel::Completed));
    lemma_launch_begins_quietly(command);
    lemma_launch_trace_push(command, none, EventModel::Completed);
    lemma_launch_trace_push(command, printed, EventModel::Exited { success });
    lemma_launch_trace_push(command, exited, EventModel::Completed);
    let started = launch_trace(command, none);
    let spawned = launch_trace(command, printed);
    let reported = launch_trace(command, exited);
    lemma_notifications_push(started.1, launch_step(started.0, EventModel::Completed).1);
    lemma_notifications_push(spawned.1, launch_step(spawned.0, EventModel::Exited { success }).1);
    lemma_notifications_push(reported.1, launch_step(reported.0, EventModel::Completed).1);
    lemma_spawns_push(started.1, launch_step(started.0, EventModel::Completed).1);
    lemma_spawns_push(spawned.1, launch_step(spawned.0, EventModel::Exited { success }).1);
    lemma_spawns_push(reported.1, launch_step(reported.0, EventModel::Completed).1);
    assert(notifications(started.1) =~= Seq::empty());
    assert(notifications(launch_trace(command, exit_events(success)).1) =~= seq![
        exit_request(command[0], success),
    ]);
}

/// An empty command never starts a program and brings no notification,
/// whatever the driver answers; once the line for the user is printed the
/// launch fails on the empty command, and stays failed.
pub proof fn lemma_launch_empty_command(events: Seq<EventModel>)
    ensures
        spawns(launch_trace(Seq::empty(), events).1) == 0,
        notifications(launch_trace(Seq::empty(), events).1).len() == 0,
        events.len() > 0 ==> launch_trace(Seq::empty(), events).0 is Failed,
        events.len() > 0 && events[0] is Completed ==> launch_trace(Seq::empty(), events).0 == (
            LaunchModel::Failed { failure: FailureModel::EmptyCommand }
        ),
        events.len() == 1 && events[0] is Completed ==> launch_trace(
            Seq::empty(),
            events,
        ).1.last() == (ActionModel::Fail { failure: FailureModel::EmptyCommand }),
    decreases events.len(),
{
    let command = Seq::<Seq<char>>::empty();
    if events.len() == 0 {
        lemma_launch_begins_quietly(command);
    } else {
        lemma_launch_empty_command(events.drop_last());
        let before = launch_trace(command, events.drop_last());
        lemma_notifications_push(before.1, launch_step(before.0, events.last()).1);
        lemma_spawns_push(before.1, launch_step(before.0, events.last()).1);
        if events.len() > 1 {
            assert(events.drop_last()[0] == events[0]);
        }
    }
}

/// A program that cannot be started fails the launch with the reason that
/// the operating system gave, and no notification is asked for then or
/// later.
pub proof fn lemma_launch_spawn_refused(
    command: Seq<Seq<char>>,
    detail: Seq<char>,
    later: Seq<EventModel>,
)
    requires
        command.len() > 0,
    ensures
        ({
            let events = seq![EventModel::Completed, EventModel::Refused { detail }];
            let failure = FailureModel::SpawnFailed { program: command[0], detail };
            &&& launch_trace(command, events).1.last() == ActionModel::Fail { failure }
            &&& launch_trace(command, events + later).0 == LaunchModel::Failed { failure }
            &&& notifications(launch_trace(command, events + later).1).len() == 0
        }),
{
    let none = Seq::<EventModel>::empty();
    let printed = none.push(EventModel::Completed);
    let refused = EventModel::Refused { detail };
    let events = seq![EventModel::Completed, refused];
    assert(events =~= printed.push(refused));
    lemma_launch_trace_push(command, none, EventModel::Completed);
    lemma_launch_trace_push(command, printed, refused);
    lemma_launch_notifies_at_most_once(command, printed);
    lemma_notifications_push(
        launch_trace(command, printed).1,
        launch_step(launch_trace(command, printed).0, refused).1,
    );
    lemma_launch_end_is_final(command, events, later);
}

} // verus!
