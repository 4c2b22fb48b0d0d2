//! The widgets of the board: what each shows when it fails, the fetch of a
//! project panel, and the widget set built from a configuration.
use vstd::prelude::*;

use crate::components::{load_error, ErrorDetails, LoadState, WithButtonModalError};
use crate::config::{Config, ShowMergeRequest};
use crate::fetch::{
    first_of, last_pipeline_request, merge_requests_request, oldest_first, pipelines_request,
    GitlabError, MergeRequestsFetch, MergeRequestsStage, ProjectFetch, ProjectStage, ProjectView,
    Reply, Request, MERGE_REQUESTS_COUNT, PIPELINES_COUNT,
};
use crate::model::{Issue, MergeRequestContainer, Todo};
use crate::refresh::{Action, Widget};
use crate::text::{decimal, decimal_string};

verus! {

/// What a failed widget shows.
pub type Failure = WithButtonModalError<GitlabError>;

/// The kinds of widget, for their failure messages.
#[derive(Debug, Clone, Copy, PartialEq, Eq, Structural)]
pub enum Panel {
    Issues,
    Todos,
    /// The panel of one project.
    Project(u64),
    Pipelines,
    MergeRequests,
}

pub open spec fn failure_message_spec(panel: Panel, host: Seq<char>, error: GitlabError) -> Seq<
    char,
> {
    match panel {
        Panel::Issues => if error is Gitlabs {
            "Error during connect gitlab "@ + host
        } else {
            "Error during load issues of "@ + host
        },
        Panel::Todos => if error is Gitlabs {
            "Error during connect gitlab "@ + host
        } else {
            "Error during load todos of "@ + host
        },
        Panel::Project(id) => if error is Gitlabs {
            "Error during load gitlab "@ + host
        } else {
            "Error during load project "@ + decimal(id as nat)
        },
        Panel::Pipelines => "Error during load pipelines"@,
        Panel::MergeRequests => "Error during load merge requests"@,
    }
}

/// The message of a widget of `host` that failed with `error`: a failure to
/// get a client names the instance, any other the view.
pub fn failure_message(panel: Panel, host: &String, error: &GitlabError) -> (r: String)
    ensures
        r@ == failure_message_spec(panel, host@, *error),
{
    let connect = match error {
        GitlabError::Gitlabs(_) => true,
        _ => false,
    };
    match panel {
        Panel::Issues => {
            let mut s = if connect {
                String::from_str("Error during connect gitlab ")
            } else {
                String::from_str("Error during load issues of ")
            };
            s.append(host.as_str());
            s
        },
        Panel::Todos => {
            let mut s = if connect {
                String::from_str("Error during connect gitlab ")
            } else {
                String::from_str("Error during load todos of ")
            };
            s.append(host.as_str());
            s
        },
        Panel::Project(id) => {
            if connect {
                let mut s = String::from_str("Error during load gitlab ");
                s.append(host.as_str());
                s
            } else {
                let mut s = String::from_str("Error during load project ");
                s.append(decimal_string(id).as_str());
                s
            }
        },
        Panel::Pipelines => String::from_str("Error during load pipelines"),
        Panel::MergeRequests => String::from_str("Error during load merge requests"),
    }
}

/// The failed state of a widget of `host`.
pub fn failed_state<T>(panel: Panel, host: &String, error: GitlabError) -> (r: LoadState<T, Failure>)
    ensures
        r is Error,
        r->Error_0.label@ == "Load error"@,
        r->Error_0.details.message@ == failure_message_spec(panel, host@, error),
        r->Error_0.details.error == Some(error),
{
    let message = failure_message(panel, host, &error);
    load_error(message, error)
}

/// A fetch outcome as a widget of `host` takes it: a failure becomes the
/// labelled error with its message.
pub fn with_failure<T>(panel: Panel, host: &String, result: Result<T, GitlabError>) -> (r: Result<
    T,
    Failure,
>)
    ensures
        result is Ok ==> r == Ok::<T, Failure>(result->Ok_0),
        result is Err ==> r is Err && r->Err_0.label@ == "Load error"@
            && r->Err_0.details.message@ == failure_message_spec(panel, host@, result->Err_0)
            && r->Err_0.details.error == Some(result->Err_0),
{
    match result {
        Ok(t) => Ok(t),
        Err(error) => {
            let message = failure_message(panel, host, &error);
            Err(
                WithButtonModalError::new(
                    String::from_str("Load error"),
                    ErrorDetails::new(message, Some(error)),
                ),
            )
        },
    }
}

/// What a project panel shows: the project view and its merge requests.
#[derive(Debug)]
pub struct ProjectPanel {
    pub view: ProjectView,
    pub merge_requests: Vec<MergeRequestContainer>,
}

/// Fetch of a project panel: the project view, then the merge-request view.
#[allow(inconsistent_fields)]
pub enum PanelFetch {
    Project { fetch: ProjectFetch, show: ShowMergeRequest },
    MergeRequests { view: ProjectView, fetch: MergeRequestsFetch },
    Done(Result<ProjectPanel, GitlabError>),
}

impl PanelFetch {
    pub open spec fn wf(&self) -> bool {
        match self {
            PanelFetch::Project { fetch, .. } => !(fetch.stage is Done),
            PanelFetch::MergeRequests { view, fetch } => fetch.wf() && !(fetch.stage is Done),
            PanelFetch::Done(_) => true,
        }
    }

    /// Starts the fetch of the panel of `project_id`; the request returned is
    /// the first to perform.
    pub fn new(project_id: u64, show: ShowMergeRequest) -> (r: (Self, Request))
        ensures
            r.0.wf(),
            r.0 is Project,
            r.0->Project_fetch.project_id == project_id,
            r.0->Project_show == show,
            r.1 == (Request::Project { project: project_id }),
    {
        let (fetch, req) = ProjectFetch::new(project_id);
        (PanelFetch::Project { fetch, show }, req)
    }

    /// Takes the reply to the last request; returns the next request, or
    /// `None` once the panel is fetched or failed. The project view comes
    /// first; once it is complete the merge-request view starts.
    pub fn step(self, reply: Reply) -> (r: (Self, Option<Request>))
        requires
            self.wf(),
        ensures
            r.0.wf(),
            r.1 is None <==> r.0 is Done,
            self is Done ==> r.0 == self,
            !(self is Done) && reply is Failed ==> r.0 == PanelFetch::Done(Err(reply->Failed_0)),
            self is Project && self->Project_fetch.stage is AwaitProject && reply is Project ==> r.0
                is Project && r.0->Project_show == self->Project_show
                && r.0->Project_fetch.project_id == self->Project_fetch.project_id
                && r.0->Project_fetch.stage == (ProjectStage::AwaitPipelines {
                project: reply->Project_0,
            }) && r.1 == Some(
                pipelines_request(self->Project_fetch.project_id, reply->Project_0.default_branch),
            ),
            self is Project && self->Project_fetch.stage is AwaitPipelines && reply is Pipelines
                ==> r.0 is MergeRequests && r.0->MergeRequests_view.name
                == self->Project_fetch.stage->AwaitPipelines_project.name
                && r.0->MergeRequests_view.default_branch
                == self->Project_fetch.stage->AwaitPipelines_project.default_branch
                && r.0->MergeRequests_view.pipelines@ == oldest_first(
                reply->Pipelines_0@,
                PIPELINES_COUNT as nat,
            ) && r.0->MergeRequests_fetch.project_id == self->Project_fetch.project_id
                && r.0->MergeRequests_fetch.show == self->Project_show
                && r.0->MergeRequests_fetch.stage is AwaitUser && r.1 == Some(Request::CurrentUser),
            self is MergeRequests && r.0 is MergeRequests ==> r.0->MergeRequests_view
                == self->MergeRequests_view && r.0->MergeRequests_fetch.project_id
                == self->MergeRequests_fetch.project_id && r.0->MergeRequests_fetch.show
                == self->MergeRequests_fetch.show && r.0->MergeRequests_fetch.issued@
                == self->MergeRequests_fetch.issued@.push(r.1->0),
            self is MergeRequests && self->MergeRequests_fetch.stage is AwaitUser && reply is User
                ==> r.0 is MergeRequests && r.1 == Some(
                merge_requests_request(
                    self->MergeRequests_fetch.project_id,
                    self->MergeRequests_fetch.show,
                    reply->User_0.id,
                ),
            ),
            self is MergeRequests && self->MergeRequests_fetch.stage is AwaitMergeRequests
                && reply is MergeRequests ==> ({
                let listed = oldest_first(reply->MergeRequests_0@, MERGE_REQUESTS_COUNT as nat);
                if listed.len() == 0 {
                    r.0 is Done && r.0->Done_0 is Ok && r.0->Done_0->Ok_0.view
                        == self->MergeRequests_view && r.0->Done_0->Ok_0.merge_requests@.len() == 0
                } else {
                    r.0 is MergeRequests && r.0->MergeRequests_fetch.listed@ == listed && r.1 == Some(
                        last_pipeline_request(self->MergeRequests_fetch.project_id, listed[0].iid),
                    )
                }
            }),
            self is MergeRequests && self->MergeRequests_fetch.stage is AwaitLastPipeline
                && reply is Pipelines ==> ({
                let f = self->MergeRequests_fetch;
                let d = f.stage->done@.len();
                let c = MergeRequestContainer {
                    inner: f.stage->current,
                    last_pipeline: first_of(reply->Pipelines_0@),
                };
                if d + 1 == f.listed@.len() {
                    r.0 is Done && r.0->Done_0 is Ok && r.0->Done_0->Ok_0.view
                        == self->MergeRequests_view && r.0->Done_0->Ok_0.merge_requests@
                        == f.stage->done@.push(c)
                } else {
                    r.0 is MergeRequests && r.0->MergeRequests_fetch.stage->done@ == f.stage->done@.push(c)
                        && r.1 == Some(last_pipeline_request(f.project_id, f.listed@[(d + 1) as int].iid))
                }
            }),
            !(self is Done) && !(reply is Failed) && r.0 is Done && r.0->Done_0 is Err ==> r.0->Done_0->Err_0 is Network,
    {
        match self {
            PanelFetch::Done(o) => (PanelFetch::Done(o), None),
            PanelFetch::Project { fetch, show } => {
                let project_id = fetch.project_id;
                let (fetch, next) = fetch.step(reply);
                match fetch.stage {
                    ProjectStage::Done(Ok(view)) => {
                        let (mrs, req) = MergeRequestsFetch::new(project_id, show);
                        (PanelFetch::MergeRequests { view, fetch: mrs }, Some(req))
                    },
                    ProjectStage::Done(Err(e)) => (PanelFetch::Done(Err(e)), None),
                    stage => (PanelFetch::Project { fetch: ProjectFetch { project_id, stage }, show }, next),
                }
            },
            PanelFetch::MergeRequests { view, fetch } => {
                let (fetch, next) = fetch.step(reply);
                let MergeRequestsFetch { project_id, show, stage, issued, listed } = fetch;
                match stage {
                    MergeRequestsStage::Done(Ok(merge_requests)) => (
                        PanelFetch::Done(Ok(ProjectPanel { view, merge_requests })),
                        None,
                    ),
                    MergeRequestsStage::Done(Err(e)) => (PanelFetch::Done(Err(e)), None),
                    stage => (
                        PanelFetch::MergeRequests {
                            view,
                            fetch: MergeRequestsFetch { project_id, show, stage, issued, listed },
                        },
                        next,
                    ),
                }
            },
        }
    }
}

/// Whether `w` is a fresh widget refreshing every `seconds`.
pub open spec fn fresh_widget<T>(w: Widget<T, Failure>, seconds: u64) -> bool {
    &&& w.generation_spec() == 0
    &&& w.state_spec() is Loading
    &&& w.interval_spec() == seconds
}

/// Every widget of the board, fresh: per instance (in configuration order)
/// one issues widget, one to-dos widget, and one panel per tracked project.
/// Each starts loading with the fetch of generation 0 to run.
pub struct Dashboard {
    pub issues: Vec<Widget<Vec<Issue>, Failure>>,
    pub todos: Vec<Widget<Vec<Todo>, Failure>>,
    pub projects: Vec<Vec<Widget<ProjectPanel, Failure>>>,
}

impl Dashboard {
    /// Builds the board for `config`.
    pub fn new(config: &Config) -> (r: Self)
        ensures
            r.issues@.len() == config.gitlabs@.len(),
            r.todos@.len() == config.gitlabs@.len(),
            r.projects@.len() == config.gitlabs@.len(),
            forall|i: int|
                0 <= i < config.gitlabs@.len() ==> fresh_widget(
                    #[trigger] r.issues@[i],
                    config.refresh_every.seconds_spec(),
                ) && fresh_widget(r.todos@[i], config.refresh_every.seconds_spec())
                    && r.projects@[i]@.len() == config.gitlabs@[i].project_ids@.len() && forall|
                    k: int,
                | 0 <= k < r.projects@[i]@.len() ==> fresh_widget(
                    #[trigger] r.projects@[i]@[k],
                    config.refresh_every.seconds_spec(),
                ),
    {
        let seconds = config.refresh_every.seconds();
        let mut issues: Vec<Widget<Vec<Issue>, Failure>> = Vec::new();
        let mut todos: Vec<Widget<Vec<Todo>, Failure>> = Vec::new();
        let mut projects: Vec<Vec<Widget<ProjectPanel, Failure>>> = Vec::new();
        let mut i: usize = 0;
        while i < config.gitlabs.len()
            invariant
                i <= config.gitlabs@.len(),
                seconds == config.refresh_every.seconds_spec(),
                issues@.len() == i,
                todos@.len() == i,
                projects@.len() == i,
                forall|j: int| 0 <= j < i ==> fresh_widget(#[trigger] issues@[j], seconds),
                forall|j: int| 0 <= j < i ==> fresh_widget(#[trigger] todos@[j], seconds),
                forall|j: int|
                    0 <= j < i ==> (#[trigger] projects@[j])@.len()
                        == config.gitlabs@[j].project_ids@.len(),
                forall|j: int, k: int|
                    0 <= j < i && 0 <= k < projects@[j]@.len() ==> fresh_widget(
                        #[trigger] projects@[j]@[k],
                        seconds,
                    ),
            decreases config.gitlabs@.len() - i,
        {
            let (w, _) = Widget::new(seconds);
            issues.push(w);
            let (w, _) = Widget::new(seconds);
            todos.push(w);
            let ids = &config.gitlabs[i].project_ids;
            let mut panels: Vec<Widget<ProjectPanel, Failure>> = Vec::new();
            let mut k: usize = 0;
            while k < ids.len()
                invariant
                    k <= ids@.len(),
                    panels@.len() == k,
                    ids@ == config.gitlabs@[i as int].project_ids@,
                    forall|m: int| 0 <= m < k ==> fresh_widget(#[trigger] panels@[m], seconds),
                decreases ids@.len() - k,
            {
                let (w, _) = Widget::new(seconds);
                panels.push(w);
                k = k + 1;
            }
            let ghost before_projects = projects@;
            projects.push(panels);
            assert forall|j: int, k: int|
                0 <= j <= i && 0 <= k < projects@[j]@.len() implies fresh_widget(
                #[trigger] projects@[j]@[k],
                seconds,
            ) by {
                if j < i {
                    assert(projects@[j] == before_projects[j]);
                }
            }
            i = i + 1;
        }
        Dashboard { issues, todos, projects }
    }
}

} // verus!
