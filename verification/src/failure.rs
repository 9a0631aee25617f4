//! The ways in which either mode can fail.

use vstd::prelude::*;
use vstd::string::*;

verus! {

/// The class of a [`Failure`].
#[derive(Clone, Copy, Debug, PartialEq, Eq, Structural)]
pub enum FailureKind {
    /// The operating system or the notification service refused a request.
    Io,
    /// A command-line record did not have the expected structure.
    DataFormat,
    /// The caller gave nothing to run.
    InvalidInput,
    /// The driver answered an action with an event that is no answer to it.
    Protocol,
}

/// Why a mode stopped without completing.
#[derive(Debug, PartialEq, Eq)]
pub enum Failure {
    /// The command-line record of process `pid` at `path` could not be read.
    RecordUnreadable { pid: u32, path: String, detail: String },
    /// The command-line record of process `pid` at `path` holds no token.
    MalformedRecord { pid: u32, path: String },
    /// Launch mode was given an empty command.
    EmptyCommand,
    /// The operating system could not start `program`.
    SpawnFailed { program: String, detail: String },
    /// The notification service did not take the notification.
    DispatchFailed { detail: String },
    /// The driver handed over an event that does not answer the last action.
    OutOfTurn,
}

/// Mathematical value of a [`Failure`].
pub enum FailureModel {
    RecordUnreadable { pid: u32, path: Seq<char>, detail: Seq<char> },
    MalformedRecord { pid: u32, path: Seq<char> },
    EmptyCommand,
    SpawnFailed { program: Seq<char>, detail: Seq<char> },
    DispatchFailed { detail: Seq<char> },
    OutOfTurn,
}

impl FailureModel {
    /// The class of the failure.
    pub open spec fn kind(self) -> FailureKind {
        match self {
            FailureModel::RecordUnreadable { .. } => FailureKind::Io,
            FailureModel::MalformedRecord { .. } => FailureKind::DataFormat,
            FailureModel::EmptyCommand => FailureKind::InvalidInput,
            FailureModel::SpawnFailed { .. } => FailureKind::Io,
            FailureModel::DispatchFailed { .. } => FailureKind::Io,
            FailureModel::OutOfTurn => FailureKind::Protocol,
        }
    }

    /// The text that reports the failure to the user.
    pub open spec fn message(self) -> Seq<char> {
        match self {
            FailureModel::RecordUnreadable { path, detail, .. } => path + ": "@ + detail,
            FailureModel::MalformedRecord { path, .. } => path + " contained unknown format"@,
            FailureModel::EmptyCommand => "Invalid input"@,
            FailureModel::SpawnFailed { program, detail } => program + ": "@ + detail,
            FailureModel::DispatchFailed { detail } => detail,
            FailureModel::OutOfTurn => "event does not answer the pending action"@,
        }
    }
}

impl View for Failure {
    type V = FailureModel;

    open spec fn view(&self) -> FailureModel {
        match self {
            Failure::RecordUnreadable { pid, path, detail } => FailureModel::RecordUnreadable {
                pid: *pid,
                path: path@,
                detail: detail@,
            },
            Failure::MalformedRecord { pid, path } => FailureModel::MalformedRecord {
                pid: *pid,
                path: path@,
            },
            Failure::EmptyCommand => FailureModel::EmptyCommand,
            Failure::SpawnFailed { program, detail } => FailureModel::SpawnFailed {
                program: program@,
                detail: detail@,
            },
            Failure::DispatchFailed { detail } => FailureModel::DispatchFailed { detail: detail@ },
            Failure::OutOfTurn => FailureModel::OutOfTurn,
        }
    }
}

impl Clone for Failure {
    fn clone(&self) -> (copy: Self)
        ensures
            copy == *self,
    {
        match self {
            Failure::RecordUnreadable { pid, path, detail } => Failure::RecordUnreadable {
                pid: *pid,
                path: path.clone(),
                detail: detail.clone(),
            },
            Failure::MalformedRecord { pid, path } => Failure::MalformedRecord {
                pid: *pid,
                path: path.clone(),
            },
            Failure::EmptyCommand => Failure::EmptyCommand,
            Failure::SpawnFailed { program, detail } => Failure::SpawnFailed {
                program: program.clone(),
                detail: detail.clone(),
            },
            Failure::DispatchFailed { detail } => Failure::DispatchFailed { detail: detail.clone() },
            Failure::OutOfTurn => Failure::OutOfTurn,
        }
    }
}

impl Failure {
    /// The class of the failure.
    pub fn kind(&self) -> (kind: FailureKind)
        ensures
            kind == self@.kind(),
    {
        match self {
            Failure::RecordUnreadable { .. } => FailureKind::Io,
            Failure::MalformedRecord { .. } => FailureKind::DataFormat,
            Failure::EmptyCommand => FailureKind::InvalidInput,
            Failure::SpawnFailed { .. } => FailureKind::Io,
            Failure::DispatchFailed { .. } => FailureKind::Io,
            Failure::OutOfTurn => FailureKind::Protocol,
        }
    }

    /// The text that reports the failure to the user.
    pub fn message(&self) -> (text: String)
        ensures
            text@ == self@.message(),
    {
        match self {
            Failure::RecordUnreadable { path, detail, .. } => {
                path.clone().concat(": ").concat(detail.as_str())
            },
            Failure::MalformedRecord { path, .. } => path.clone().concat(" contained unknown format"),
            Failure::EmptyCommand => String::from_str("Invalid input"),
            Failure::SpawnFailed { program, detail } => {
                program.clone().concat(": ").concat(detail.as_str())
            },
            Failure::DispatchFailed { detail } => detail.clone(),
            Failure::OutOfTurn => String::from_str("event does not answer the pending action"),
        }
    }
}

} // verus!
