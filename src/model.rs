//! Records fetched from a GitLab instance.
use vstd::prelude::*;

verus! {

/// An issue assigned to the current user.
#[derive(Debug, Clone, PartialEq, Eq)]
pub struct Issue {
    pub id: u64,
    pub iid: u64,
    pub title: String,
    pub state: String,
    pub web_url: String,
}

/// A pending to-do of the current user.
#[derive(Debug, Clone, PartialEq, Eq)]
pub struct Todo {
    pub id: u64,
    pub target_url: String,
    pub body: String,
}

/// The authenticated user.
#[derive(Debug, Clone, PartialEq, Eq)]
pub struct User {
    pub id: u64,
    pub name: String,
}

/// A project record.
#[derive(Debug, Clone, PartialEq, Eq)]
pub struct Project {
    pub name: String,
    pub default_branch: String,
}

/// A pipeline run.
#[derive(Debug, Clone, PartialEq, Eq)]
pub struct Pipeline {
    pub id: u64,
    pub iid: u64,
    pub project_id: u64,
    pub status: PipelineStatus,
    pub web_url: String,
    pub created_at: String,
}

/// Status of a pipeline run.
#[derive(Debug, Clone, Copy, PartialEq, Eq, Structural)]
pub enum PipelineStatus {
    Running,
    Pending,
    Success,
    Failed,
    Canceled,
    Skipped,
    Created,
    Manual,
    Scheduled,
    Preparing,
    WaitingForResource,
}

/// How a status or a merge request is shown: still going, good, or bad.
#[derive(Debug, Clone, Copy, PartialEq, Eq, Structural)]
pub enum Indicator {
    InProgress,
    Passed,
    Broken,
}

impl PipelineStatus {
    /// Only a failed run counts as an error.
    pub fn is_error(&self) -> (r: bool)
        ensures
            r == (*self == PipelineStatus::Failed),
    {
        match self {
            PipelineStatus::Failed => true,
            _ => false,
        }
    }

    pub open spec fn indicator_spec(self) -> Indicator {
        match self {
            PipelineStatus::Success => Indicator::Passed,
            PipelineStatus::Failed | PipelineStatus::Canceled | PipelineStatus::Skipped => {
                Indicator::Broken
            },
            _ => Indicator::InProgress,
        }
    }

    /// Success is passed; failed, canceled and skipped are broken; every other
    /// status is still in progress.
    pub fn indicator(&self) -> (r: Indicator)
        ensures
            r == self.indicator_spec(),
    {
        match self {
            PipelineStatus::Success => Indicator::Passed,
            PipelineStatus::Failed | PipelineStatus::Canceled | PipelineStatus::Skipped => {
                Indicator::Broken
            },
            _ => Indicator::InProgress,
        }
    }
}

/// Detailed merge status of a merge request that can be merged.
pub const MERGE_STATUS_MERGEABLE: &'static str = "mergeable";

/// A merge request.
#[derive(Debug, Clone, PartialEq, Eq)]
pub struct MergeRequest {
    pub id: u64,
    pub iid: u64,
    pub project_id: u64,
    pub title: String,
    pub state: MergeRequestState,
    pub web_url: String,
    pub created_at: String,
    pub detailed_merge_status: String,
}

/// Lifecycle state of a merge request.
#[derive(Debug, Clone, Copy, PartialEq, Eq, Structural)]
pub enum MergeRequestState {
    Opened,
    Closed,
    Locked,
    Merged,
}

/// A merge request with its latest pipeline, if it has one.
#[derive(Debug)]
pub struct MergeRequestContainer {
    pub inner: MergeRequest,
    pub last_pipeline: Option<Pipeline>,
}

impl MergeRequestContainer {
    pub fn new(inner: MergeRequest, last_pipeline: Option<Pipeline>) -> (r: Self)
        ensures
            r.merge_request_spec() == inner,
            r.last_pipeline == last_pipeline,
    {
        MergeRequestContainer { inner, last_pipeline }
    }

    pub open spec fn merge_request_spec(&self) -> MergeRequest {
        self.inner
    }

    /// The merge request itself.
    pub fn merge_request(&self) -> (r: &MergeRequest)
        ensures
            *r == self.merge_request_spec(),
    {
        &self.inner
    }

    pub open spec fn indicator_spec(&self) -> Option<Indicator> {
        let mr = self.merge_request_spec();
        if mr.state != MergeRequestState::Opened {
            None
        } else if self.last_pipeline is Some && self.last_pipeline->0.status
            == PipelineStatus::Failed {
            Some(Indicator::Broken)
        } else if mr.detailed_merge_status@ == MERGE_STATUS_MERGEABLE@ {
            Some(Indicator::Passed)
        } else {
            Some(Indicator::InProgress)
        }
    }

    /// Only open merge requests are shown: broken when the latest pipeline
    /// failed, else passed when mergeable, else in progress.
    pub fn indicator(&self) -> (r: Option<Indicator>)
        ensures
            r == self.indicator_spec(),
    {
        if self.inner.state != MergeRequestState::Opened {
            return None;
        }
        let failed = match &self.last_pipeline {
            Some(p) => p.status.is_error(),
            None => false,
        };
        if failed {
            Some(Indicator::Broken)
        } else if self.inner.detailed_merge_status == String::from_str(MERGE_STATUS_MERGEABLE) {
            Some(Indicator::Passed)
        } else {
            Some(Indicator::InProgress)
        }
    }
}

} // verus!
