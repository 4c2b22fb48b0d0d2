use roci::config::ShowMergeRequest;
use roci::fetch::{
    first_pipeline, issues_outcome, issues_request, oldest_first_window, todos_outcome,
    todos_request, GitlabError, MergeRequestsFetch, MergeRequestsStage, MyIssues, MyTodos,
    ProjectFetch, ProjectStage, Reply, Request,
};
use roci::model::{
    Issue, MergeRequest, MergeRequestState, Pipeline, PipelineStatus, Project, Todo, User,
};

fn pipeline(id: u64) -> Pipeline {
    Pipeline {
        id,
        iid: id,
        project_id: 42,
        status: PipelineStatus::Success,
        web_url: format!("https://gitlab.example/p/{id}"),
        created_at: format!("2024-01-{:02}", id % 28 + 1),
    }
}

fn merge_request(iid: u64) -> MergeRequest {
    MergeRequest {
        id: 1000 + iid,
        iid,
        project_id: 42,
        title: format!("MR {iid}"),
        state: MergeRequestState::Opened,
        web_url: format!("https://gitlab.example/mr/{iid}"),
        created_at: "2024-02-01".to_string(),
        detailed_merge_status: "mergeable".to_string(),
    }
}

#[test]
fn issues_endpoint_and_parameters() {
    let r = issues_request();
    assert_eq!(r.endpoint(), "issues");
    match r {
        Request::Issues(e) => {
            let params = e.parameters();
            assert_eq!(
                params,
                vec![
                    ("scope".to_string(), "assigned_to_me".to_string()),
                    ("state".to_string(), "opened".to_string())
                ]
            );
        }
        _ => panic!("not an issues request"),
    }
}

#[test]
fn issues_without_state_has_one_parameter() {
    let e = MyIssues::new("all".to_string(), None);
    assert_eq!(e.parameters(), vec![("scope".to_string(), "all".to_string())]);
}

#[test]
fn todos_endpoint_and_parameters() {
    assert_eq!(todos_request(), Request::Todos(MyTodos));
    assert_eq!(MyTodos.endpoint(), "todos");
    assert_eq!(MyTodos.parameters(), vec![("state".to_string(), "pending".to_string())]);
}

#[test]
fn endpoints_of_project_requests() {
    assert_eq!(Request::CurrentUser.endpoint(), "user");
    assert_eq!(Request::Project { project: 42 }.endpoint(), "projects/42");
    let p = Request::Pipelines { project: 7, ref_: "main".to_string(), limit: 10 };
    assert_eq!(p.endpoint(), "projects/7/pipelines");
    assert_eq!(p.limit(), Some(10));
    let m = Request::MergeRequests { project: 1234567890, author: None, limit: 25 };
    assert_eq!(m.endpoint(), "projects/1234567890/merge_requests");
    let mp = Request::MergeRequestPipelines { project: 42, merge_request: 0, limit: 1 };
    assert_eq!(mp.endpoint(), "projects/42/merge_requests/0/pipelines");
    assert_eq!(Request::Project { project: 42 }.limit(), None);
}

#[test]
fn window_keeps_newest_ten_oldest_first() {
    let newest_first: Vec<u64> = (1..=12).rev().collect();
    assert_eq!(oldest_first_window(newest_first, 10), vec![3, 4, 5, 6, 7, 8, 9, 10, 11, 12]);
    assert_eq!(oldest_first_window(vec![2u64, 1], 10), vec![1, 2]);
    assert_eq!(oldest_first_window(Vec::<u64>::new(), 10), Vec::<u64>::new());
}

#[test]
fn project_fetch_returns_ten_pipelines_oldest_first() {
    let (f, req) = ProjectFetch::new(42);
    assert_eq!(req, Request::Project { project: 42 });
    let (f, req) = f.step(Reply::Project(Project {
        name: "demo".to_string(),
        default_branch: "main".to_string(),
    }));
    assert_eq!(
        req,
        Some(Request::Pipelines { project: 42, ref_: "main".to_string(), limit: 10 })
    );
    let newest_first: Vec<Pipeline> = (1..=15).rev().map(pipeline).collect();
    let (f, req) = f.step(Reply::Pipelines(newest_first));
    assert_eq!(req, None);
    match f.stage {
        ProjectStage::Done(Ok(view)) => {
            assert_eq!(view.name, "demo");
            assert_eq!(view.default_branch, "main");
            let ids: Vec<u64> = view.pipelines.iter().map(|p| p.id).collect();
            assert_eq!(ids, vec![6, 7, 8, 9, 10, 11, 12, 13, 14, 15]);
        }
        _ => panic!("project view not done"),
    }
}

#[test]
fn project_fetch_failure_aborts_view() {
    let (f, _) = ProjectFetch::new(42);
    let (f, req) = f.step(Reply::Failed(GitlabError::Api("404 Project Not Found".to_string())));
    assert_eq!(req, None);
    match f.stage {
        ProjectStage::Done(Err(e)) => assert_eq!(e, GitlabError::Api("404 Project Not Found".to_string())),
        _ => panic!("expected failure"),
    }
}

#[test]
fn project_fetch_pipeline_failure_aborts_view() {
    let (f, _) = ProjectFetch::new(3);
    let (f, _) = f.step(Reply::Project(Project { name: "x".into(), default_branch: "dev".into() }));
    let (f, req) = f.step(Reply::Failed(GitlabError::Network("reset".into())));
    assert_eq!(req, None);
    assert!(matches!(f.stage, ProjectStage::Done(Err(GitlabError::Network(_)))));
}

#[test]
fn project_fetch_wrong_reply_is_a_network_error() {
    let (f, _) = ProjectFetch::new(3);
    let (f, req) = f.step(Reply::Todos(vec![]));
    assert_eq!(req, None);
    assert!(matches!(f.stage, ProjectStage::Done(Err(GitlabError::Network(_)))));
}

#[test]
fn only_mine_fetch_makes_one_pipeline_call_per_merge_request() {
    let (mut f, mut req) = MergeRequestsFetch::new(42, ShowMergeRequest::OnlyMine);
    assert_eq!(req, Request::CurrentUser);
    let mut log = vec![req.clone()];
    // The instance filters by author: of the project's merge requests, three
    // are the user's, listed newest first.
    let replies_for = |r: &Request| -> Reply {
        match r {
            Request::CurrentUser => Reply::User(User { id: 7, name: "me".to_string() }),
            Request::MergeRequests { author: Some(7), .. } => {
                Reply::MergeRequests(vec![merge_request(30), merge_request(20), merge_request(10)])
            }
            Request::MergeRequestPipelines { merge_request, .. } if *merge_request == 20 => {
                Reply::Pipelines(vec![pipeline(5), pipeline(4)])
            }
            Request::MergeRequestPipelines { .. } => Reply::Pipelines(vec![]),
            _ => Reply::Failed(GitlabError::Request("unexpected".to_string())),
        }
    };
    loop {
        let reply = replies_for(&req);
        let (next_f, next) = f.step(reply);
        f = next_f;
        match next {
            Some(r) => {
                log.push(r.clone());
                req = r;
            }
            None => break,
        }
    }
    assert_eq!(log[1], Request::MergeRequests { project: 42, author: Some(7), limit: 25 });
    let pipeline_calls: Vec<u64> = log
        .iter()
        .filter_map(|r| match r {
            Request::MergeRequestPipelines { merge_request, limit, .. } => {
                assert_eq!(*limit, 1);
                Some(*merge_request)
            }
            _ => None,
        })
        .collect();
    assert_eq!(pipeline_calls, vec![10, 20, 30]);
    assert_eq!(log.len(), 2 + 3);
    match f.stage {
        MergeRequestsStage::Done(Ok(list)) => {
            let iids: Vec<u64> = list.iter().map(|c| c.merge_request().iid).collect();
            assert_eq!(iids, vec![10, 20, 30]);
            assert!(list[0].last_pipeline.is_none());
            assert_eq!(list[1].last_pipeline.as_ref().unwrap().id, 5);
            assert!(list[2].last_pipeline.is_none());
        }
        _ => panic!("merge requests not done"),
    }
}

#[test]
fn all_merge_requests_have_no_author_filter() {
    let (f, _) = MergeRequestsFetch::new(9, ShowMergeRequest::All);
    let (_, req) = f.step(Reply::User(User { id: 7, name: "me".into() }));
    assert_eq!(req, Some(Request::MergeRequests { project: 9, author: None, limit: 25 }));
}

#[test]
fn empty_merge_request_list_is_done_without_pipeline_calls() {
    let (f, _) = MergeRequestsFetch::new(9, ShowMergeRequest::All);
    let (f, _) = f.step(Reply::User(User { id: 7, name: "me".into() }));
    let (f, req) = f.step(Reply::MergeRequests(vec![]));
    assert_eq!(req, None);
    assert!(matches!(f.stage, MergeRequestsStage::Done(Ok(ref v)) if v.is_empty()));
}

#[test]
fn merge_request_list_is_capped_at_twenty_five() {
    let (f, _) = MergeRequestsFetch::new(9, ShowMergeRequest::All);
    let (mut f, _) = f.step(Reply::User(User { id: 7, name: "me".into() }));
    let list: Vec<MergeRequest> = (1..=30).rev().map(merge_request).collect();
    let (next_f, mut req) = f.step(Reply::MergeRequests(list));
    f = next_f;
    let mut calls = 0;
    while req.is_some() {
        calls += 1;
        let (next_f, next) = f.step(Reply::Pipelines(vec![]));
        f = next_f;
        req = next;
    }
    assert_eq!(calls, 25);
    match f.stage {
        MergeRequestsStage::Done(Ok(list)) => {
            assert_eq!(list.len(), 25);
            assert_eq!(list[0].merge_request().iid, 6);
            assert_eq!(list[24].merge_request().iid, 30);
        }
        _ => panic!("not done"),
    }
}

#[test]
fn merge_request_pipeline_failure_aborts_list() {
    let (f, _) = MergeRequestsFetch::new(9, ShowMergeRequest::All);
    let (f, _) = f.step(Reply::User(User { id: 7, name: "me".into() }));
    let (f, _) = f.step(Reply::MergeRequests(vec![merge_request(2), merge_request(1)]));
    let (f, _) = f.step(Reply::Pipelines(vec![]));
    let (f, req) = f.step(Reply::Failed(GitlabError::Api("boom".into())));
    assert_eq!(req, None);
    assert!(matches!(f.stage, MergeRequestsStage::Done(Err(GitlabError::Api(_)))));
}

#[test]
fn first_pipeline_is_the_latest() {
    assert_eq!(first_pipeline(vec![pipeline(9), pipeline(8)]).unwrap().id, 9);
    assert!(first_pipeline(vec![]).is_none());
}

#[test]
fn single_request_outcomes() {
    let issue = Issue {
        id: 1,
        iid: 2,
        title: "t".into(),
        state: "opened".into(),
        web_url: "u".into(),
    };
    assert_eq!(issues_outcome(Reply::Issues(vec![issue.clone()])), Ok(vec![issue]));
    assert!(matches!(issues_outcome(Reply::Todos(vec![])), Err(GitlabError::Network(_))));
    let todo = Todo { id: 3, target_url: "u".into(), body: "b".into() };
    assert_eq!(todos_outcome(Reply::Todos(vec![todo.clone()])), Ok(vec![todo]));
    assert_eq!(
        todos_outcome(Reply::Failed(GitlabError::Request("bad".into()))),
        Err(GitlabError::Request("bad".into()))
    );
}

#[test]
fn request_query_parameters() {
    let p = Request::Pipelines { project: 7, ref_: "main".to_string(), limit: 10 };
    assert_eq!(
        p.parameters(),
        vec![("source".to_string(), "push".to_string()), ("ref".to_string(), "main".to_string())]
    );
    let mine = Request::MergeRequests { project: 7, author: Some(31), limit: 25 };
    assert_eq!(mine.parameters(), vec![("author_id".to_string(), "31".to_string())]);
    let all = Request::MergeRequests { project: 7, author: None, limit: 25 };
    assert!(all.parameters().is_empty());
    assert_eq!(issues_request().parameters().len(), 2);
    assert_eq!(todos_request().parameters(), vec![("state".to_string(), "pending".to_string())]);
    assert!(Request::CurrentUser.parameters().is_empty());
}
