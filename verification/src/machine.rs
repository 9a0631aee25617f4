//! What passes between a mode and the code that drives it: the mode asks for
//! an [`Action`], the driver performs it and answers with an [`Event`].

use vstd::prelude::*;
use crate::failure::{Failure, FailureModel};
use crate::notification::{NotificationRequest, RequestModel};

verus! {

/// Time between two looks at a watched process, in milliseconds.
pub const POLL_INTERVAL_MILLIS: u64 = 250;

/// What a mode asks its driver to do next.
#[derive(Debug, PartialEq, Eq)]
pub enum Action {
    /// Test whether a directory exists at `path`; answered by
    /// [`Event::Probed`].
    Probe { path: String },
    /// Read the file at `path` as text; answered by [`Event::Record`], or by
    /// [`Event::Refused`] where it cannot be read.
    ReadRecord { path: String },
    /// Print `line` for the user; answered by [`Event::Completed`].
    Announce { line: String },
    /// Block for `millis` milliseconds; answered by [`Event::Completed`].
    Sleep { millis: u64 },
    /// Start `program` with `arguments`, with no shell in between and the
    /// standard streams inherited, and wait until it exits; answered by
    /// [`Event::Exited`], or by [`Event::Refused`] where it cannot be
    /// started.
    Spawn { program: String, arguments: Vec<String> },
    /// Hand `request` to the notification service; answered by
    /// [`Event::Completed`], or by [`Event::Refused`] where the service does
    /// not take it.
    Notify { request: NotificationRequest },
    /// The mode has completed: leave with success.
    Finish,
    /// The mode has failed: report `failure` and leave without success.
    Fail { failure: Failure },
}

/// What the driver reports after it has performed an [`Action`].
#[derive(Debug, PartialEq, Eq)]
pub enum Event {
    /// The directory asked about exists, or does not.
    Probed { exists: bool },
    /// The file asked for holds `contents`.
    Record { contents: String },
    /// The program that was started has exited, with success or without.
    Exited { success: bool },
    /// The action was performed and has nothing to report.
    Completed,
    /// The action could not be performed; `detail` is the reason as the
    /// operating system or the service words it.
    Refused { detail: String },
}

/// Mathematical value of an [`Action`].
pub enum ActionModel {
    Probe { path: Seq<char> },
    ReadRecord { path: Seq<char> },
    Announce { line: Seq<char> },
    Sleep { millis: u64 },
    Spawn { program: Seq<char>, arguments: Seq<Seq<char>> },
    Notify { request: RequestModel },
    Finish,
    Fail { failure: FailureModel },
}

/// Mathematical value of an [`Event`].
pub enum EventModel {
    Probed { exists: bool },
    Record { contents: Seq<char> },
    Exited { success: bool },
    Completed,
    Refused { detail: Seq<char> },
}

impl View for Action {
    type V = ActionModel;

    open spec fn view(&self) -> ActionModel {
        match self {
            Action::Probe { path } => ActionModel::Probe { path: path@ },
            Action::ReadRecord { path } => ActionModel::ReadRecord { path: path@ },
            Action::Announce { line } => ActionModel::Announce { line: line@ },
            Action::Sleep { millis } => ActionModel::Sleep { millis: *millis },
            Action::Spawn { program, arguments } => ActionModel::Spawn {
                program: program@,
                arguments: arguments.deep_view(),
            },
            Action::Notify { request } => ActionModel::Notify { request: request@ },
            Action::Finish => ActionModel::Finish,
            Action::Fail { failure } => ActionModel::Fail { failure: failure@ },
        }
    }
}

impl View for Event {
    type V = EventModel;

    open spec fn view(&self) -> EventModel {
        match self {
            Event::Probed { exists } => EventModel::Probed { exists: *exists },
            Event::Record { contents } => EventModel::Record { contents: contents@ },
            Event::Exited { success } => EventModel::Exited { success: *success },
            Event::Completed => EventModel::Completed,
            Event::Refused { detail } => EventModel::Refused { detail: detail@ },
        }
    }
}

/// The notifications among `actions`, in the order in which they are asked
/// for.
pub open spec fn notifications(actions: Seq<ActionModel>) -> Seq<RequestModel>
    decreases actions.len(),
{
    if actions.len() == 0 {
        Seq::empty()
    } else {
        match actions.last() {
            ActionModel::Notify { request } => notifications(actions.drop_last()).push(request),
            _ => notifications(actions.drop_last()),
        }
    }
}

/// The number of program starts among `actions`.
pub open spec fn spawns(actions: Seq<ActionModel>) -> nat
    decreases actions.len(),
{
    if actions.len() == 0 {
        0
    } else if actions.last() is Spawn {
        spawns(actions.drop_last()) + 1
    } else {
        spawns(actions.drop_last())
    }
}

/// One more action adds its notification, if it is one, behind those that
/// were asked for before.
pub proof fn lemma_notifications_push(actions: Seq<ActionModel>, action: ActionModel)
    ensures
        notifications(actions.push(action)) == match action {
            ActionModel::Notify { request } => notifications(actions).push(request),
            _ => notifications(actions),
        },
{
    assert(actions.push(action).drop_last() =~= actions);
}

/// One more action adds one to the program starts if it is one.
pub proof fn lemma_spawns_push(actions: Seq<ActionModel>, action: ActionModel)
    ensures
        spawns(actions.push(action)) == spawns(actions) + (if action is Spawn {
            1nat
        } else {
            0nat
        }),
{
    assert(actions.push(action).drop_last() =~= actions);
}

impl Action {
    /// Whether the action ends the mode: nothing answers it.
    pub fn is_final(&self) -> (last: bool)
        ensures
            last == (self@ is Finish || self@ is Fail),
    {
        match self {
            Action::Finish => true,
            Action::Fail { .. } => true,
            _ => false,
        }
    }
}

} // verus!
