//! Status Projector: a total, injective relabeling of the remote-reported
//! lifecycle status into this layer's stable, closed status set. No transition
//! logic lives here; the projection is a pure relabeling of a closed tag set.

use vstd::prelude::*;

verus! {

/// The lifecycle status as reported by the remote shim, a closed,
/// exhaustively enumerated set.
#[derive(Debug, PartialEq, Eq, Clone, Copy, Structural)]
pub enum RemoteStatus {
    UnknownStatus,
    CreatedStatus,
    RunningStatus,
    StoppedStatus,
    DeletedStatus,
    PauseStatus,
    PausingStatus,
}

/// This layer's stable status set. `DeletedStatus` is terminal from this
/// layer's perspective. Values are only ever produced by projecting a
/// remote-reported value; this layer never computes transitions.
#[derive(Debug, PartialEq, Eq, Clone, Copy, Structural)]
pub enum Status {
    UnknownStatus,
    CreatedStatus,
    RunningStatus,
    StoppedStatus,
    DeletedStatus,
    PauseStatus,
    PausingStatus,
}

/// The projection, as a total function over the closed remote domain.
pub open spec fn project(remote: RemoteStatus) -> Status {
    match remote {
        RemoteStatus::UnknownStatus => Status::UnknownStatus,
        RemoteStatus::CreatedStatus => Status::CreatedStatus,
        RemoteStatus::RunningStatus => Status::RunningStatus,
        RemoteStatus::StoppedStatus => Status::StoppedStatus,
        RemoteStatus::DeletedStatus => Status::DeletedStatus,
        RemoteStatus::PauseStatus => Status::PauseStatus,
        RemoteStatus::PausingStatus => Status::PausingStatus,
    }
}

/// The serialized form of a status, as printed by the `status` command:
/// a JSON string holding the status label.
pub open spec fn spec_status_label(s: Status) -> Seq<char> {
    match s {
        Status::UnknownStatus => "\"Unknown\""@,
        Status::CreatedStatus => "\"Created\""@,
        Status::RunningStatus => "\"Running\""@,
        Status::StoppedStatus => "\"Stopped\""@,
        Status::DeletedStatus => "\"Deleted\""@,
        Status::PauseStatus => "\"Pause\""@,
        Status::PausingStatus => "\"Pausing\""@,
    }
}

impl Status {
    /// Project a remote-reported status value into this layer's status set.
    /// Total: defined for every remote value, with no fallback case.
    pub fn new(in_obj: RemoteStatus) -> (r: Status)
        ensures
            r == project(in_obj),
    {
        match in_obj {
            RemoteStatus::UnknownStatus => Status::UnknownStatus,
            RemoteStatus::CreatedStatus => Status::CreatedStatus,
            RemoteStatus::RunningStatus => Status::RunningStatus,
            RemoteStatus::StoppedStatus => Status::StoppedStatus,
            RemoteStatus::DeletedStatus => Status::DeletedStatus,
            RemoteStatus::PauseStatus => Status::PauseStatus,
            RemoteStatus::PausingStatus => Status::PausingStatus,
        }
    }

    /// Render the serialized form of this status: a JSON string of its label.
    pub fn render(&self) -> (r: String)
        ensures
            r@ == spec_status_label(*self),
    {
        match self {
            Status::UnknownStatus => String::from_str("\"Unknown\""),
            Status::CreatedStatus => String::from_str("\"Created\""),
            Status::RunningStatus => String::from_str("\"Running\""),
            Status::StoppedStatus => String::from_str("\"Stopped\""),
            Status::DeletedStatus => String::from_str("\"Deleted\""),
            Status::PauseStatus => String::from_str("\"Pause\""),
            Status::PausingStatus => String::from_str("\"Pausing\""),
        }
    }
}

/// The projection is injective over its closed domain: distinct remote
/// status values never collapse to the same projected status.
pub proof fn lemma_project_injective(a: RemoteStatus, b: RemoteStatus)
    ensures
        project(a) == project(b) ==> a == b,
{
}

} // verus!
