//! The requests sent to an instance and the fetch pipelines that sequence
//! them.
//!
//! A pipeline is a step function: it is handed the reply to the request it
//! asked for and answers with the next request, until it is done. Performing
//! the requests is up to the caller, one at a time and in the order asked.
use vstd::prelude::*;

use crate::cache::GitlabsError;
use crate::config::ShowMergeRequest;
use crate::model::{Issue, MergeRequest, MergeRequestContainer, Pipeline, Project, Todo, User};
use crate::text::{decimal, decimal_string};

verus! {

/// How many pipelines the project view shows.
pub const PIPELINES_COUNT: usize = 10;

/// How many merge requests the merge-request view lists.
pub const MERGE_REQUESTS_COUNT: usize = 25;

/// Any failure of a fetch pipeline.
#[derive(Debug, Clone, PartialEq, Eq)]
pub enum GitlabError {
    /// No client could be had for the instance.
    Gitlabs(GitlabsError),
    /// Transport or protocol failure, including a reply of the wrong kind.
    Network(String),
    /// The instance rejected the request; its message.
    Api(String),
    /// The request could not be built from its parameters.
    Request(String),
}

pub open spec fn opt_view(o: Option<String>) -> Option<Seq<char>> {
    match o {
        Some(s) => Some(s@),
        None => None,
    }
}

/// Issues of the current user.
#[derive(Debug, Clone, PartialEq, Eq)]
pub struct MyIssues {
    scope: String,
    state: Option<String>,
}

impl MyIssues {
    pub fn new(scope: String, state: Option<String>) -> (r: Self)
        ensures
            r.scope_spec() == scope@,
            r.state_spec() == opt_view(state),
    {
        MyIssues { scope, state }
    }

    pub closed spec fn scope_spec(&self) -> Seq<char> {
        self.scope@
    }

    pub closed spec fn state_spec(&self) -> Option<Seq<char>> {
        opt_view(self.state)
    }

    /// Path of the endpoint, relative to the API root.
    pub fn endpoint(&self) -> (r: String)
        ensures
            r@ == "issues"@,
    {
        String::from_str("issues")
    }

    /// Query parameters: the scope, then the state if there is one.
    pub fn parameters(&self) -> (r: Vec<(String, String)>)
        ensures
            r@.len() == (if self.state_spec() is Some { 2int } else { 1int }),
            r@[0].0@ == "scope"@,
            r@[0].1@ == self.scope_spec(),
            self.state_spec() is Some ==> r@[1].0@ == "state"@ && r@[1].1@ == self.state_spec()->0,
    {
        let mut params: Vec<(String, String)> = Vec::new();
        params.push((String::from_str("scope"), self.scope.clone()));
        match &self.state {
            Some(state) => params.push((String::from_str("state"), state.clone())),
            None => {},
        }
        params
    }
}

/// Pending to-dos of the current user.
#[derive(Debug, Clone, Copy, PartialEq, Eq)]
pub struct MyTodos;

impl MyTodos {
    /// Path of the endpoint, relative to the API root.
    pub fn endpoint(&self) -> (r: String)
        ensures
            r@ == "todos"@,
    {
        String::from_str("todos")
    }

    /// Query parameters: only pending to-dos.
    pub fn parameters(&self) -> (r: Vec<(String, String)>)
        ensures
            r@.len() == 1,
            r@[0].0@ == "state"@,
            r@[0].1@ == "pending"@,
    {
        let mut params: Vec<(String, String)> = Vec::new();
        params.push((String::from_str("state"), String::from_str("pending")));
        params
    }
}

/// A GET request against the REST API.
#[derive(Debug, Clone, PartialEq, Eq)]
pub enum Request {
    /// The authenticated user.
    CurrentUser,
    /// Open issues assigned to the user.
    Issues(MyIssues),
    /// Pending to-dos.
    Todos(MyTodos),
    /// A project record.
    Project { project: u64 },
    /// The most recent pipelines started by a push on one branch.
    Pipelines { project: u64, ref_: String, limit: usize },
    /// The most recent merge requests, by one author or by anyone.
    MergeRequests { project: u64, author: Option<u64>, limit: usize },
    /// The most recent pipelines of one merge request.
    MergeRequestPipelines { project: u64, merge_request: u64, limit: usize },
}

/// The request for the open issues assigned to the current user.
pub fn issues_request() -> (r: Request)
    ensures
        r is Issues,
        r->Issues_0.scope_spec() == "assigned_to_me"@,
        r->Issues_0.state_spec() == Some("opened"@),
{
    Request::Issues(
        MyIssues::new(String::from_str("assigned_to_me"), Some(String::from_str("opened"))),
    )
}

/// The request for the pending to-dos.
pub fn todos_request() -> (r: Request)
    ensures
        r == Request::Todos(MyTodos),
{
    Request::Todos(MyTodos)
}

pub open spec fn project_path(project: u64) -> Seq<char> {
    "projects/"@ + decimal(project as nat)
}

impl Request {
    pub open spec fn endpoint_spec(&self) -> Seq<char> {
        match self {
            Request::CurrentUser => "user"@,
            Request::Issues(_) => "issues"@,
            Request::Todos(_) => "todos"@,
            Request::Project { project } => project_path(*project),
            Request::Pipelines { project, .. } => project_path(*project) + "/pipelines"@,
            Request::MergeRequests { project, .. } => project_path(*project) + "/merge_requests"@,
            Request::MergeRequestPipelines { project, merge_request, .. } => project_path(
                *project,
            ) + "/merge_requests/"@ + decimal(*merge_request as nat) + "/pipelines"@,
        }
    }

    /// Path of the endpoint, relative to the API root.
    pub fn endpoint(&self) -> (r: String)
        ensures
            r@ == self.endpoint_spec(),
    {
        match self {
            Request::CurrentUser => String::from_str("user"),
            Request::Issues(e) => e.endpoint(),
            Request::Todos(e) => e.endpoint(),
            Request::Project { project } => {
                let mut s = String::from_str("projects/");
                s.append(decimal_string(*project).as_str());
                s
            },
            Request::Pipelines { project, .. } => {
                let mut s = String::from_str("projects/");
                s.append(decimal_string(*project).as_str());
                s.append("/pipelines");
                s
            },
            Request::MergeRequests { project, .. } => {
                let mut s = String::from_str("projects/");
                s.append(decimal_string(*project).as_str());
                s.append("/merge_requests");
                s
            },
            Request::MergeRequestPipelines { project, merge_request, .. } => {
                let mut s = String::from_str("projects/");
                s.append(decimal_string(*project).as_str());
                s.append("/merge_requests/");
                s.append(decimal_string(*merge_request).as_str());
                s.append("/pipelines");
                s
            },
        }
    }

    pub open spec fn parameters_spec(&self) -> Seq<(Seq<char>, Seq<char>)> {
        match self {
            Request::Issues(e) => if e.state_spec() is Some {
                seq![("scope"@, e.scope_spec()), ("state"@, e.state_spec()->0)]
            } else {
                seq![("scope"@, e.scope_spec())]
            },
            Request::Todos(_) => seq![("state"@, "pending"@)],
            Request::Pipelines { ref_, .. } => seq![("source"@, "push"@), ("ref"@, ref_@)],
            Request::MergeRequests { author, .. } => match author {
                Some(a) => seq![("author_id"@, decimal(*a as nat))],
                None => Seq::empty(),
            },
            _ => Seq::empty(),
        }
    }

    /// Query parameters, paging aside.
    pub fn parameters(&self) -> (r: Vec<(String, String)>)
        ensures
            r@.len() == self.parameters_spec().len(),
            forall|i: int|
                0 <= i < r@.len() ==> (#[trigger] r@[i]).0@ == self.parameters_spec()[i].0
                    && r@[i].1@ == self.parameters_spec()[i].1,
    {
        match self {
            Request::Issues(e) => e.parameters(),
            Request::Todos(e) => e.parameters(),
            Request::Pipelines { ref_, .. } => {
                let mut params: Vec<(String, String)> = Vec::new();
                params.push((String::from_str("source"), String::from_str("push")));
                params.push((String::from_str("ref"), ref_.clone()));
                params
            },
            Request::MergeRequests { author, .. } => {
                let mut params: Vec<(String, String)> = Vec::new();
                match author {
                    Some(a) => params.push((String::from_str("author_id"), decimal_string(*a))),
                    None => {},
                }
                params
            },
            _ => Vec::new(),
        }
    }

    /// At most how many records the request asks for, where it pages.
    pub fn limit(&self) -> (r: Option<usize>)
        ensures
            r == (match self {
                Request::Pipelines { limit, .. } => Some(*limit),
                Request::MergeRequests { limit, .. } => Some(*limit),
                Request::MergeRequestPipelines { limit, .. } => Some(*limit),
                _ => None,
            }),
    {
        match self {
            Request::Pipelines { limit, .. } => Some(*limit),
            Request::MergeRequests { limit, .. } => Some(*limit),
            Request::MergeRequestPipelines { limit, .. } => Some(*limit),
            _ => None,
        }
    }
}

/// What came back for a request.
#[derive(Debug)]
pub enum Reply {
    User(User),
    Project(Project),
    Pipelines(Vec<Pipeline>),
    MergeRequests(Vec<MergeRequest>),
    Issues(Vec<Issue>),
    Todos(Vec<Todo>),
    Failed(GitlabError),
}

/// The newest `limit` records of a newest-first list, oldest first.
pub open spec fn oldest_first<T>(newest_first: Seq<T>, limit: nat) -> Seq<T> {
    if newest_first.len() <= limit {
        newest_first.reverse()
    } else {
        newest_first.take(limit as int).reverse()
    }
}

/// Keeps the first `limit` records of `newest_first` and reverses them.
pub fn oldest_first_window<T>(newest_first: Vec<T>, limit: usize) -> (r: Vec<T>)
    ensures
        r@ == oldest_first(newest_first@, limit as nat),
{
    let mut rest = newest_first;
    rest.truncate(limit);
    let ghost kept = rest@;
    assert(kept == (if newest_first@.len() <= limit {
        newest_first@
    } else {
        newest_first@.take(limit as int)
    }));
    let mut out: Vec<T> = Vec::new();
    while rest.len() > 0
        invariant
            kept.len() == rest@.len() + out@.len(),
            rest@ == kept.take(rest@.len() as int),
            forall|i: int| 0 <= i < out@.len() ==> out@[i] == kept[kept.len() - 1 - i],
        decreases rest@.len(),
    {
        let x = rest.pop().unwrap();
        out.push(x);
    }
    assert(out@ =~= kept.reverse());
    out
}

/// The error for a reply that does not answer the request asked.
pub fn unexpected_reply() -> (r: GitlabError)
    ensures
        r is Network,
{
    GitlabError::Network(String::from_str("unexpected reply"))
}

/// The issues widget's outcome from the reply to `issues_request`.
pub fn issues_outcome(reply: Reply) -> (r: Result<Vec<Issue>, GitlabError>)
    ensures
        reply is Issues ==> r == Ok::<Vec<Issue>, GitlabError>(reply->Issues_0),
        reply is Failed ==> r == Err::<Vec<Issue>, GitlabError>(reply->Failed_0),
        !(reply is Issues) && !(reply is Failed) ==> r is Err && r->Err_0 is Network,
{
    match reply {
        Reply::Issues(issues) => Ok(issues),
        Reply::Failed(e) => Err(e),
        _ => Err(unexpected_reply()),
    }
}

/// The to-dos widget's outcome from the reply to `todos_request`.
pub fn todos_outcome(reply: Reply) -> (r: Result<Vec<Todo>, GitlabError>)
    ensures
        reply is Todos ==> r == Ok::<Vec<Todo>, GitlabError>(reply->Todos_0),
        reply is Failed ==> r == Err::<Vec<Todo>, GitlabError>(reply->Failed_0),
        !(reply is Todos) && !(reply is Failed) ==> r is Err && r->Err_0 is Network,
{
    match reply {
        Reply::Todos(todos) => Ok(todos),
        Reply::Failed(e) => Err(e),
        _ => Err(unexpected_reply()),
    }
}

/// The first record of a newest-first list: the latest one.
pub open spec fn first_of<T>(s: Seq<T>) -> Option<T> {
    if s.len() > 0 {
        Some(s[0])
    } else {
        None
    }
}

/// The latest pipeline of a newest-first list, if any.
pub fn first_pipeline(pipelines: Vec<Pipeline>) -> (r: Option<Pipeline>)
    ensures
        r == first_of(pipelines@),
{
    let mut pipelines = pipelines;
    if pipelines.len() > 0 {
        Some(pipelines.remove(0))
    } else {
        None
    }
}

/// The request for the pipelines shown in the project view.
pub open spec fn pipelines_request(project: u64, branch: String) -> Request {
    Request::Pipelines { project, ref_: branch, limit: PIPELINES_COUNT }
}

/// The request for the latest pipeline of one merge request.
pub open spec fn last_pipeline_request(project: u64, merge_request: u64) -> Request {
    Request::MergeRequestPipelines { project, merge_request, limit: 1 }
}

/// The request for the listed merge requests: by the current user only when
/// the view shows only theirs.
pub open spec fn merge_requests_request(project: u64, show: ShowMergeRequest, user: u64) -> Request {
    Request::MergeRequests {
        project,
        author: if show == ShowMergeRequest::OnlyMine {
            Some(user)
        } else {
            None
        },
        limit: MERGE_REQUESTS_COUNT,
    }
}

/// The project view: name, default branch and its recent pipelines, oldest
/// first.
#[derive(Debug)]
pub struct ProjectView {
    pub name: String,
    pub default_branch: String,
    pub pipelines: Vec<Pipeline>,
}

/// Where the project view's fetch stands.
#[derive(Debug)]
pub enum ProjectStage {
    AwaitProject,
    AwaitPipelines { project: Project },
    Done(Result<ProjectView, GitlabError>),
}

/// Fetch of the project view: the project record, then the pipelines pushed
/// on its default branch. Either failing fails the whole view.
#[derive(Debug)]
pub struct ProjectFetch {
    pub project_id: u64,
    pub stage: ProjectStage,
}

impl ProjectFetch {
    /// Starts the fetch; the request returned is the first to perform.
    pub fn new(project_id: u64) -> (r: (Self, Request))
        ensures
            r.0.project_id == project_id,
            r.0.stage is AwaitProject,
            r.1 == (Request::Project { project: project_id }),
    {
        (ProjectFetch { project_id, stage: ProjectStage::AwaitProject }, Request::Project { project: project_id })
    }

    /// Takes the reply to the last request; returns the next request, or
    /// `None` once the fetch is done.
    pub fn step(self, reply: Reply) -> (r: (Self, Option<Request>))
        ensures
            r.0.project_id == self.project_id,
            r.1 is None <==> r.0.stage is Done,
            self.stage is Done ==> r.0 == self && r.1 is None,
            self.stage is AwaitProject && reply is Project ==> r.0.stage == (ProjectStage::AwaitPipelines {
                project: reply->Project_0,
            }) && r.1 == Some(pipelines_request(self.project_id, reply->Project_0.default_branch)),
            self.stage is AwaitPipelines && reply is Pipelines ==> r.1 is None && r.0.stage is Done
                && r.0.stage->Done_0 is Ok && r.0.stage->Done_0->Ok_0.name
                == self.stage->AwaitPipelines_project.name
                && r.0.stage->Done_0->Ok_0.default_branch
                == self.stage->AwaitPipelines_project.default_branch
                && r.0.stage->Done_0->Ok_0.pipelines@ == oldest_first(
                reply->Pipelines_0@,
                PIPELINES_COUNT as nat,
            ),
            self.stage !is Done && reply is Failed ==> r.0.stage == ProjectStage::Done(
                Err(reply->Failed_0),
            ) && r.1 is None,
            self.stage is AwaitProject && !(reply is Project) && !(reply is Failed) ==> r.1 is None
                && r.0.stage is Done && r.0.stage->Done_0 is Err && r.0.stage->Done_0->Err_0 is Network,
            self.stage is AwaitPipelines && !(reply is Pipelines) && !(reply is Failed) ==> r.1 is None
                && r.0.stage is Done && r.0.stage->Done_0 is Err && r.0.stage->Done_0->Err_0 is Network,
    {
        let project_id = self.project_id;
        match self.stage {
            ProjectStage::Done(o) => (ProjectFetch { project_id, stage: ProjectStage::Done(o) }, None),
            ProjectStage::AwaitProject => match reply {
                Reply::Project(project) => {
                    let req = Request::Pipelines {
                        project: project_id,
                        ref_: project.default_branch.clone(),
                        limit: PIPELINES_COUNT,
                    };
                    (ProjectFetch { project_id, stage: ProjectStage::AwaitPipelines { project } }, Some(req))
                },
                Reply::Failed(e) => (ProjectFetch { project_id, stage: ProjectStage::Done(Err(e)) }, None),
                _ => (ProjectFetch { project_id, stage: ProjectStage::Done(Err(unexpected_reply())) }, None),
            },
            ProjectStage::AwaitPipelines { project } => match reply {
                Reply::Pipelines(pipelines) => {
                    let view = ProjectView {
                        name: project.name,
                        default_branch: project.default_branch,
                        pipelines: oldest_first_window(pipelines, PIPELINES_COUNT),
                    };
                    (ProjectFetch { project_id, stage: ProjectStage::Done(Ok(view)) }, None)
                },
                Reply::Failed(e) => (ProjectFetch { project_id, stage: ProjectStage::Done(Err(e)) }, None),
                _ => (ProjectFetch { project_id, stage: ProjectStage::Done(Err(unexpected_reply())) }, None),
            },
        }
    }
}

/// For a project with at least `PIPELINES_COUNT` pipelines on its default
/// branch, the project view holds exactly the `PIPELINES_COUNT` newest of them,
/// oldest first: when the instance lists them newest first (identities
/// falling), the view's identities rise.
pub proof fn law_pipeline_window(newest_first: Seq<Pipeline>)
    requires
        newest_first.len() >= PIPELINES_COUNT,
    ensures
        oldest_first(newest_first, PIPELINES_COUNT as nat).len() == PIPELINES_COUNT,
        forall|i: int|
            0 <= i < PIPELINES_COUNT ==> #[trigger] oldest_first(
                newest_first,
                PIPELINES_COUNT as nat,
            )[i] == newest_first[PIPELINES_COUNT - 1 - i],
        (forall|i: int, j: int|
            0 <= i < j < newest_first.len() ==> #[trigger] newest_first[i].id
                > #[trigger] newest_first[j].id) ==> (forall|i: int, j: int|
            0 <= i < j < PIPELINES_COUNT ==> #[trigger] oldest_first(
                newest_first,
                PIPELINES_COUNT as nat,
            )[i].id < #[trigger] oldest_first(newest_first, PIPELINES_COUNT as nat)[j].id),
{
}

/// Where the merge-request view's fetch stands.
#[derive(Debug)]
pub enum MergeRequestsStage {
    AwaitUser,
    AwaitMergeRequests,
    /// Waiting for the latest pipeline of `current`; `pending` holds the
    /// merge requests after it, the next one last; `done` those before it.
    AwaitLastPipeline {
        current: MergeRequest,
        pending: Vec<MergeRequest>,
        done: Vec<MergeRequestContainer>,
    },
    Done(Result<Vec<MergeRequestContainer>, GitlabError>),
}

/// Fetch of the merge-request view: the current user, the merge requests of
/// the project (the user's own only, if so configured), then the latest
/// pipeline of each, one after the other in display order. Any failure fails
/// the whole view.
pub struct MergeRequestsFetch {
    pub project_id: u64,
    pub show: ShowMergeRequest,
    pub stage: MergeRequestsStage,
    /// The requests asked so far, in order.
    pub issued: Ghost<Seq<Request>>,
    /// The listed merge requests in display order, once they came.
    pub listed: Ghost<Seq<MergeRequest>>,
}

impl MergeRequestsFetch {
    pub open spec fn wf(&self) -> bool {
        let issued = self.issued@;
        let listed = self.listed@;
        &&& issued.len() >= 1
        &&& issued[0] == Request::CurrentUser
        &&& issued.len() >= 2 ==> issued[1] is MergeRequests
        &&& match self.stage {
            MergeRequestsStage::AwaitUser => issued.len() == 1,
            MergeRequestsStage::AwaitMergeRequests => issued.len() == 2,
            MergeRequestsStage::AwaitLastPipeline { current, pending, done } => {
                let d = done@.len();
                let n = listed.len();
                &&& d < n
                &&& issued.len() == 2 + d + 1
                &&& current == listed[d as int]
                &&& pending@.len() == n - d - 1
                &&& forall|k: int| 0 <= k < pending@.len() ==> pending@[k] == listed[n - 1 - k]
                &&& forall|k: int| 0 <= k < d ==> (#[trigger] done@[k]).inner == listed[k]
                &&& forall|k: int|
                    0 <= k <= d ==> issued[2 + k] == last_pipeline_request(
                        self.project_id,
                        (#[trigger] listed[k]).iid,
                    )
            },
            MergeRequestsStage::Done(Ok(v)) => {
                &&& v@.len() == listed.len()
                &&& issued.len() == 2 + v@.len()
                &&& forall|k: int|
                    0 <= k < v@.len() ==> (#[trigger] v@[k]).inner == listed[k] && issued[2 + k]
                        == last_pipeline_request(self.project_id, v@[k].inner.iid)
            },
            MergeRequestsStage::Done(Err(_)) => true,
        }
    }

    /// Starts the fetch; the request returned is the first to perform.
    pub fn new(project_id: u64, show: ShowMergeRequest) -> (r: (Self, Request))
        ensures
            r.0.wf(),
            r.0.project_id == project_id,
            r.0.show == show,
            r.0.stage is AwaitUser,
            r.0.issued@ == seq![r.1],
            r.1 == Request::CurrentUser,
    {
        let ghost first = seq![Request::CurrentUser];
        let ghost nothing = Seq::<MergeRequest>::empty();
        let f = MergeRequestsFetch {
            project_id,
            show,
            stage: MergeRequestsStage::AwaitUser,
            issued: Ghost(first),
            listed: Ghost(nothing),
        };
        (f, Request::CurrentUser)
    }

    /// Takes the reply to the last request; returns the next request, or
    /// `None` once the fetch is done.
    pub fn step(self, reply: Reply) -> (r: (Self, Option<Request>))
        requires
            self.wf(),
        ensures
            r.0.wf(),
            r.0.project_id == self.project_id,
            r.0.show == self.show,
            r.1 is None <==> r.0.stage is Done,
            r.1 is Some ==> r.0.issued@ == self.issued@.push(r.1->0),
            r.1 is None ==> r.0.issued@ == self.issued@,
            self.stage is Done ==> r.0 == self && r.1 is None,
            self.stage is AwaitUser && reply is User ==> r.0.stage is AwaitMergeRequests && r.1
                == Some(merge_requests_request(self.project_id, self.show, reply->User_0.id)),
            self.stage is AwaitMergeRequests && reply is MergeRequests ==> r.0.listed@
                == oldest_first(reply->MergeRequests_0@, MERGE_REQUESTS_COUNT as nat) && (if r.0.listed@.len() == 0 {
                r.1 is None && r.0.stage is Done && r.0.stage->Done_0 is Ok
            } else {
                r.1 == Some(last_pipeline_request(self.project_id, r.0.listed@[0].iid))
            }),
            self.stage is AwaitLastPipeline && reply is Pipelines ==> r.0.listed@ == self.listed@
                && ({
                let d = self.stage->done@.len();
                let c = MergeRequestContainer {
                    inner: self.stage->current,
                    last_pipeline: first_of(reply->Pipelines_0@),
                };
                if d + 1 == self.listed@.len() {
                    r.1 is None && r.0.stage is Done && r.0.stage->Done_0 is Ok
                        && r.0.stage->Done_0->Ok_0@ == self.stage->done@.push(c)
                } else {
                    r.0.stage is AwaitLastPipeline && r.0.stage->done@ == self.stage->done@.push(c)
                        && r.1 == Some(last_pipeline_request(self.project_id, self.listed@[(d + 1) as int].iid))
                }
            }),
            self.stage !is Done && reply is Failed ==> r.0.stage == MergeRequestsStage::Done(
                Err(reply->Failed_0),
            ) && r.1 is None,
            self.stage is AwaitUser && !(reply is User) && !(reply is Failed) ==> r.1 is None
                && r.0.stage is Done && r.0.stage->Done_0 is Err && r.0.stage->Done_0->Err_0 is Network,
            self.stage is AwaitMergeRequests && !(reply is MergeRequests) && !(reply is Failed)
                ==> r.1 is None && r.0.stage is Done && r.0.stage->Done_0 is Err
                && r.0.stage->Done_0->Err_0 is Network,
            self.stage is AwaitLastPipeline && !(reply is Pipelines) && !(reply is Failed) ==> r.1 is None
                && r.0.stage is Done && r.0.stage->Done_0 is Err && r.0.stage->Done_0->Err_0 is Network,
    {
        let MergeRequestsFetch { project_id, show, stage, issued, listed } = self;
        match stage {
            MergeRequestsStage::Done(o) => (
                MergeRequestsFetch { project_id, show, stage: MergeRequestsStage::Done(o), issued, listed },
                None,
            ),
            MergeRequestsStage::AwaitUser => match reply {
                Reply::User(user) => {
                    let author = match show {
                        ShowMergeRequest::OnlyMine => Some(user.id),
                        ShowMergeRequest::All => None,
                    };
                    let req = Request::MergeRequests {
                        project: project_id,
                        author,
                        limit: MERGE_REQUESTS_COUNT,
                    };
                    let ghost issued2 = issued@.push(req);
                    (
                        MergeRequestsFetch {
                            project_id,
                            show,
                            stage: MergeRequestsStage::AwaitMergeRequests,
                            issued: Ghost(issued2),
                            listed,
                        },
                        Some(req),
                    )
                },
                Reply::Failed(e) => (
                    MergeRequestsFetch { project_id, show, stage: MergeRequestsStage::Done(Err(e)), issued, listed },
                    None,
                ),
                _ => (
                    MergeRequestsFetch {
                        project_id,
                        show,
                        stage: MergeRequestsStage::Done(Err(unexpected_reply())),
                        issued,
                        listed,
                    },
                    None,
                ),
            },
            MergeRequestsStage::AwaitMergeRequests => match reply {
                Reply::MergeRequests(list) => {
                    let ghost shown = oldest_first(list@, MERGE_REQUESTS_COUNT as nat);
                    let mut taken = list;
                    taken.truncate(MERGE_REQUESTS_COUNT);
                    let ghost all = taken@;
                    assert(shown == all.reverse());
                    match taken.pop() {
                        None => {
                            assert(shown.len() == 0);
                            (
                                MergeRequestsFetch {
                                    project_id,
                                    show,
                                    stage: MergeRequestsStage::Done(Ok(Vec::new())),
                                    issued,
                                    listed: Ghost(shown),
                                },
                                None,
                            )
                        },
                        Some(current) => {
                            let req = Request::MergeRequestPipelines {
                                project: project_id,
                                merge_request: current.iid,
                                limit: 1,
                            };
                            let ghost issued2 = issued@.push(req);
                            assert(current == shown[0]);
                            (
                                MergeRequestsFetch {
                                    project_id,
                                    show,
                                    stage: MergeRequestsStage::AwaitLastPipeline {
                                        current,
                                        pending: taken,
                                        done: Vec::new(),
                                    },
                                    issued: Ghost(issued2),
                                    listed: Ghost(shown),
                                },
                                Some(req),
                            )
                        },
                    }
                },
                Reply::Failed(e) => (
                    MergeRequestsFetch { project_id, show, stage: MergeRequestsStage::Done(Err(e)), issued, listed },
                    None,
                ),
                _ => (
                    MergeRequestsFetch {
                        project_id,
                        show,
                        stage: MergeRequestsStage::Done(Err(unexpected_reply())),
                        issued,
                        listed,
                    },
                    None,
                ),
            },
            MergeRequestsStage::AwaitLastPipeline { current, pending, done } => match reply {
                Reply::Pipelines(pipelines) => {
                    let ghost old_done = done@;
                    let ghost old_pending = pending@;
                    let mut pending = pending;
                    let mut done = done;
                    let last = first_pipeline(pipelines);
                    done.push(MergeRequestContainer::new(current, last));
                    match pending.pop() {
                        None => {
                            let stage = MergeRequestsStage::Done(Ok(done));
                            (MergeRequestsFetch { project_id, show, stage, issued, listed }, None)
                        },
                        Some(next) => {
                            let req = Request::MergeRequestPipelines {
                                project: project_id,
                                merge_request: next.iid,
                                limit: 1,
                            };
                            let ghost issued2 = issued@.push(req);
                            assert(next == listed@[(old_done.len() + 1) as int]);
                            let stage = MergeRequestsStage::AwaitLastPipeline { current: next, pending, done };
                            (MergeRequestsFetch { project_id, show, stage, issued: Ghost(issued2), listed }, Some(req))
                        },
                    }
                },
                Reply::Failed(e) => (
                    MergeRequestsFetch { project_id, show, stage: MergeRequestsStage::Done(Err(e)), issued, listed },
                    None,
                ),
                _ => (
                    MergeRequestsFetch {
                        project_id,
                        show,
                        stage: MergeRequestsStage::Done(Err(unexpected_reply())),
                        issued,
                        listed,
                    },
                    None,
                ),
            },
        }
    }
}

/// A finished merge-request fetch made one pipeline request per listed merge
/// request, after the user and list requests, in display order: `2 + N`
/// round trips for `N` merge requests, and the view holds exactly those `N`.
pub proof fn law_one_pipeline_request_per_merge_request(f: MergeRequestsFetch)
    requires
        f.wf(),
        f.stage is Done,
        f.stage->Done_0 is Ok,
    ensures
        ({
            let v = f.stage->Done_0->Ok_0@;
            &&& v.len() == f.listed@.len()
            &&& f.issued@.len() == 2 + v.len()
            &&& f.issued@[0] == Request::CurrentUser
            &&& f.issued@[1] is MergeRequests
            &&& forall|k: int|
                0 <= k < v.len() ==> (#[trigger] v[k]).inner == f.listed@[k] && f.issued@[2 + k]
                    == last_pipeline_request(f.project_id, f.listed@[k].iid)
            &&& forall|k: int|
                0 <= k < f.issued@.len() ==> (#[trigger] f.issued@[k] is MergeRequestPipelines
                    <==> k >= 2)
        }),
{
    let v = f.stage->Done_0->Ok_0@;
    assert forall|k: int| 0 <= k < f.issued@.len() implies (#[trigger] f.issued@[k] is MergeRequestPipelines
        <==> k >= 2) by {
        if k >= 2 {
            assert(v[k - 2].inner == f.listed@[k - 2]);
        }
    }
}

} // verus!
