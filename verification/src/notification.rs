//! What is shown to the user: the three notifications of the tool.

use vstd::prelude::*;
use vstd::string::*;

verus! {

/// Priority hint that the notification service receives.
#[derive(Clone, Copy, Debug, PartialEq, Eq, Structural)]
pub enum Urgency {
    Low,
    Normal,
    Critical,
}

/// A notification that is about to be handed to the notification service.
#[derive(Debug, PartialEq, Eq)]
pub struct NotificationRequest {
    pub summary: String,
    pub urgency: Urgency,
    pub body: String,
}

/// Mathematical value of a [`NotificationRequest`].
pub struct RequestModel {
    pub summary: Seq<char>,
    pub urgency: Urgency,
    pub body: Seq<char>,
}

impl View for NotificationRequest {
    type V = RequestModel;

    open spec fn view(&self) -> RequestModel {
        RequestModel { summary: self.summary@, urgency: self.urgency, body: self.body@ }
    }
}

/// The notification for a watched process called `name` that is gone.
pub open spec fn finished_request(name: Seq<char>) -> RequestModel {
    RequestModel {
        summary: name + " Finished"@,
        urgency: Urgency::Critical,
        body: "The command has terminated"@,
    }
}

/// The notification for a command `name` that exited with success.
pub open spec fn success_request(name: Seq<char>) -> RequestModel {
    RequestModel {
        summary: name + " Success"@,
        urgency: Urgency::Critical,
        body: "The command ran successfully"@,
    }
}

/// The notification for a command `name` that did not exit with success.
pub open spec fn failure_request(name: Seq<char>) -> RequestModel {
    RequestModel {
        summary: name + " FAIL"@,
        urgency: Urgency::Critical,
        body: "The command failed to run correctly"@,
    }
}

/// The notification for a command `name`, by how it exited.
pub open spec fn exit_request(name: Seq<char>, success: bool) -> RequestModel {
    if success {
        success_request(name)
    } else {
        failure_request(name)
    }
}

impl Clone for NotificationRequest {
    fn clone(&self) -> (copy: Self)
        ensures
            copy == *self,
    {
        NotificationRequest {
            summary: self.summary.clone(),
            urgency: self.urgency,
            body: self.body.clone(),
        }
    }
}

impl NotificationRequest {
    /// A critical notification whose summary is `name` followed by `suffix`.
    fn critical(name: &str, suffix: &str, body: &str) -> (request: Self)
        ensures
            request@ == (RequestModel {
                summary: name@ + suffix@,
                urgency: Urgency::Critical,
                body: body@,
            }),
    {
        let summary = String::from_str(name).concat(suffix);
        NotificationRequest { summary, urgency: Urgency::Critical, body: String::from_str(body) }
    }

    /// Notification that the watched process `name` has terminated.
    pub fn finished(name: &str) -> (request: Self)
        ensures
            request@ == finished_request(name@),
    {
        Self::critical(name, " Finished", "The command has terminated")
    }

    /// Notification that the command `name` ran and exited with success.
    pub fn success(name: &str) -> (request: Self)
        ensures
            request@ == success_request(name@),
    {
        Self::critical(name, " Success", "The command ran successfully")
    }

    /// Notification that the command `name` ran and did not exit with success.
    pub fn failure(name: &str) -> (request: Self)
        ensures
            request@ == failure_request(name@),
    {
        Self::critical(name, " FAIL", "The command failed to run correctly")
    }

    /// Notification for the command `name`, by how it exited.
    pub fn exited(name: &str, success: bool) -> (request: Self)
        ensures
            request@ == exit_request(name@, success),
    {
        if success {
            Self::success(name)
        } else {
            Self::failure(name)
        }
    }
}

} // verus!
