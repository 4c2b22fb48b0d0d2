use std::time::Duration;

use roci::components::{load_error, BooleanState, LoadState};
use roci::config::{
    select_theme, Config, ConfigError, ConfigLoadInfo, ConfigRead, Gitlab, NotificationType,
    RefreshEvery, ShowMergeRequest, SystemMode, ThemeMode,
};
use roci::form::{FormError, InstanceForm};
use roci::model::{
    Indicator, MergeRequest, MergeRequestContainer, MergeRequestState, Pipeline, PipelineStatus,
};
use roci::state::AppState;
use roci::text::{decimal_string, format_project_ids, parse_project_ids, Truncate};

#[test]
fn empty_instance_tracks_nothing() {
    let g = Gitlab::empty("gitlab.example.com".to_string(), false, true);
    assert_eq!(g.host, "gitlab.example.com");
    assert!(!g.insecure);
    assert!(g.cert_insecure);
    assert!(g.project_ids.is_empty());
    assert_eq!(g.protocol(), "https://");
    assert_eq!(Gitlab::empty("h".into(), true, false).protocol(), "http://");
}

#[test]
fn refresh_intervals() {
    let all = [
        (RefreshEvery::X60Seconds, 60, "Refresh every 60 seconds"),
        (RefreshEvery::X5Minutes, 300, "Refresh every 5 minutes"),
        (RefreshEvery::X15Minutes, 900, "Refresh every 15 minutes"),
        (RefreshEvery::X30Minutes, 1800, "Refresh every 30 minutes"),
        (RefreshEvery::X1Hour, 3600, "Refresh every 1 hour"),
        (RefreshEvery::X6Hours, 21600, "Refresh every 6 hours"),
    ];
    for (i, (every, secs, title)) in all.iter().enumerate() {
        assert_eq!(every.seconds(), *secs);
        assert_eq!(every.duration(), Duration::from_secs(*secs));
        assert_eq!(every.title(), *title);
        assert_eq!(every.position(), i);
    }
    assert_eq!(RefreshEvery::default(), RefreshEvery::X1Hour);
}

#[test]
fn merge_request_visibility_choice() {
    assert_eq!(ShowMergeRequest::default(), ShowMergeRequest::OnlyMine);
    assert_eq!(ShowMergeRequest::OnlyMine.title(), "Show only my MRs");
    assert_eq!(ShowMergeRequest::All.title(), "Show all MRs");
    assert_eq!(ShowMergeRequest::All.position(), 1);
}

#[test]
fn theme_names_of_explicit_modes() {
    assert_eq!(ThemeMode::Dark.theme_name().unwrap(), "Ayu Dark");
    assert_eq!(ThemeMode::Light.theme_name().unwrap(), "Ayu Light");
    assert_eq!(ThemeMode::Dark.resolve().unwrap(), ThemeMode::Dark);
    assert_eq!(ThemeMode::default(), ThemeMode::System);
    assert_eq!(ThemeMode::System.title(), "System theme");
    assert_eq!(ThemeMode::Dark.title(), "Dark theme");
    assert_eq!(ThemeMode::Light.title(), "Light theme");
    assert_eq!(ThemeMode::Light.position(), 2);
}

#[test]
fn system_theme_follows_desktop_preference() {
    assert_eq!(ThemeMode::System.resolve_detected(Ok(SystemMode::Dark)).unwrap(), ThemeMode::Dark);
    assert_eq!(ThemeMode::System.resolve_detected(Ok(SystemMode::Light)).unwrap(), ThemeMode::Light);
    assert_eq!(
        ThemeMode::System.resolve_detected(Ok(SystemMode::Unspecified)).unwrap(),
        ThemeMode::Light
    );
    assert_eq!(ThemeMode::Dark.resolve_detected(Ok(SystemMode::Light)).unwrap(), ThemeMode::Dark);
    if let Ok(mode) = ThemeMode::System.resolve() {
        assert_ne!(mode, ThemeMode::System);
    }
    if let Ok(name) = ThemeMode::System.theme_name() {
        assert!(name == "Ayu Dark" || name == "Ayu Light");
    }
}

#[test]
fn theme_selection_keeps_the_name() {
    let (name, error) = select_theme(Ok("Ayu Dark"));
    assert_eq!(name, "Ayu Dark");
    assert!(error.is_none());
}

#[test]
fn load_info_notifications() {
    let (kind, text) = ConfigLoadInfo::NoOne("/home/u/.roci".into()).into_notification();
    assert_eq!(kind, NotificationType::Info);
    assert_eq!(text, "No config found");
    let (kind, text) = ConfigLoadInfo::Invalid("line 3".into()).into_notification();
    assert_eq!(kind, NotificationType::Warning);
    assert_eq!(text, "Invalid config found (line 3), new one crated");
}

#[test]
fn config_read_outcomes() {
    let mut parsed = Config::default();
    parsed.refresh_every = RefreshEvery::X15Minutes;
    let (c, info) = Config::from_read(ConfigRead::Parsed(parsed)).unwrap();
    assert_eq!(c.refresh_every, RefreshEvery::X15Minutes);
    assert!(info.is_none());
    let (c, info) = Config::from_read(ConfigRead::Malformed("bad".into())).unwrap();
    assert!(c.gitlabs.is_empty());
    assert_eq!(info, Some(ConfigLoadInfo::Invalid("bad".into())));
    let (_, info) = Config::from_read(ConfigRead::Missing("/p".into())).unwrap();
    assert_eq!(info, Some(ConfigLoadInfo::NoOne("/p".into())));
    assert_eq!(
        Config::from_read(ConfigRead::Failed(ConfigError::NoHome)).unwrap_err(),
        ConfigError::NoHome
    );
}

fn two_instances() -> Config {
    let mut c = Config::default();
    c.gitlabs.push(Gitlab::empty("a".into(), false, false));
    c.gitlabs.push(Gitlab::empty("b".into(), false, false));
    c.gitlabs.push(Gitlab::empty("a".into(), true, false));
    c
}

#[test]
fn removing_an_instance_drops_every_entry_of_the_host() {
    let mut c = two_instances();
    c.remove_instance(&"a".to_string());
    let hosts: Vec<&str> = c.gitlabs.iter().map(|g| g.host.as_str()).collect();
    assert_eq!(hosts, vec!["b"]);
    c.remove_instance(&"zzz".to_string());
    assert_eq!(c.gitlabs.len(), 1);
}

#[test]
fn project_ids_go_to_the_first_instance_of_the_host() {
    let mut c = two_instances();
    assert!(c.set_project_ids(&"a".to_string(), vec![1, 42]));
    assert_eq!(c.gitlabs[0].project_ids, vec![1, 42]);
    assert!(c.gitlabs[2].project_ids.is_empty());
    assert!(!c.set_project_ids(&"nope".to_string(), vec![5]));
    assert_eq!(c.find(&"b".to_string()), Some(1));
    assert!(c.instance(&"nope".to_string()).is_none());
}

#[test]
fn replacing_config_is_all_or_nothing() {
    let mut state: AppState<u8> = AppState::init(Config::default());
    let r = state.replace_config(two_instances(), Err(ConfigError::Io("disk full".into())));
    assert_eq!(r, Err(ConfigError::Io("disk full".into())));
    assert!(state.config().gitlabs.is_empty());
    assert_eq!(state.replace_config(two_instances(), Ok(())), Ok(()));
    assert_eq!(state.config().gitlabs.len(), 3);
}

#[test]
fn new_instance_needs_host_and_token() {
    let mut form = InstanceForm::new();
    form.host = "gitlab.example".into();
    let err = form.submit(Config::default()).unwrap_err();
    assert_eq!(err, FormError::MissingFields);
    assert_eq!(err.message(), "Please fill both fields.");
}

#[test]
fn adding_an_instance() {
    let mut form = InstanceForm::new();
    form.protocol = "http://".into();
    form.host = "gitlab.example".into();
    form.auth_key = "token".into();
    form.cert_insecure.toggle();
    let change = form.submit(Config::default()).unwrap();
    assert!(change.store_token);
    assert!(!change.invalidate);
    assert_eq!(change.config.gitlabs.len(), 1);
    let g = &change.config.gitlabs[0];
    assert_eq!(g.host, "gitlab.example");
    assert!(g.insecure);
    assert!(g.cert_insecure);
}

#[test]
fn updating_an_instance_invalidates_its_client() {
    let mut form = InstanceForm::new();
    let config = two_instances();
    form.prepare_edit(&config.gitlabs[1]);
    assert_eq!(form.protocol, "https://");
    assert_eq!(form.host, "b");
    assert!(form.is_editing.get());
    form.protocol = "http://".into();
    let change = form.submit(config).unwrap();
    assert!(!change.store_token);
    assert!(change.invalidate);
    assert!(change.config.gitlabs[1].insecure);
    assert!(!change.config.gitlabs[0].insecure);
    form.reset();
    assert!(form.host.is_empty());
    assert!(!form.is_editing.get());
}

#[test]
fn updating_an_unknown_instance_changes_nothing() {
    let mut form = InstanceForm::new();
    form.is_editing.set(true);
    form.host = "unknown".into();
    let change = form.submit(two_instances()).unwrap();
    assert!(!change.invalidate);
    assert_eq!(change.config.gitlabs.len(), 3);
}

#[test]
fn boolean_state_switches() {
    let mut b = BooleanState::new(false);
    b.toggle();
    assert!(b.get());
    b.set(false);
    assert!(!b.get());
}

#[test]
fn load_error_is_labelled() {
    let s: LoadState<(), _> = load_error("m".to_string(), 3u8);
    match s {
        LoadState::Error(e) => {
            assert_eq!(e.label, "Load error");
            assert_eq!(e.details.message, "m");
            assert_eq!(e.details.error, Some(3));
        }
        _ => panic!("not an error"),
    }
    assert!(LoadState::<u8, u8>::Loading.is_loading());
    assert!(matches!(LoadState::<u8, u8>::from_result(Err(4)), LoadState::Error(4)));
}

fn status_pipeline(status: PipelineStatus) -> Pipeline {
    Pipeline {
        id: 1,
        iid: 1,
        project_id: 1,
        status,
        web_url: String::new(),
        created_at: String::new(),
    }
}

#[test]
fn pipeline_status_indicators() {
    assert!(PipelineStatus::Failed.is_error());
    assert!(!PipelineStatus::Canceled.is_error());
    assert_eq!(PipelineStatus::Success.indicator(), Indicator::Passed);
    for s in [PipelineStatus::Failed, PipelineStatus::Canceled, PipelineStatus::Skipped] {
        assert_eq!(s.indicator(), Indicator::Broken);
    }
    for s in [
        PipelineStatus::Running,
        PipelineStatus::Pending,
        PipelineStatus::Created,
        PipelineStatus::Manual,
        PipelineStatus::Scheduled,
        PipelineStatus::Preparing,
        PipelineStatus::WaitingForResource,
    ] {
        assert_eq!(s.indicator(), Indicator::InProgress);
    }
}

#[test]
fn merge_request_indicators() {
    let mr = |state, status: &str| MergeRequest {
        id: 1,
        iid: 1,
        project_id: 1,
        title: "t".into(),
        state,
        web_url: String::new(),
        created_at: String::new(),
        detailed_merge_status: status.into(),
    };
    let open_ok = MergeRequestContainer::new(mr(MergeRequestState::Opened, "mergeable"), None);
    assert_eq!(open_ok.indicator(), Some(Indicator::Passed));
    let open_wait = MergeRequestContainer::new(mr(MergeRequestState::Opened, "checking"), None);
    assert_eq!(open_wait.indicator(), Some(Indicator::InProgress));
    let failed = MergeRequestContainer::new(
        mr(MergeRequestState::Opened, "mergeable"),
        Some(status_pipeline(PipelineStatus::Failed)),
    );
    assert_eq!(failed.indicator(), Some(Indicator::Broken));
    let merged = MergeRequestContainer::new(mr(MergeRequestState::Merged, "mergeable"), None);
    assert_eq!(merged.indicator(), None);
    assert_eq!(merged.merge_request().state, MergeRequestState::Merged);
}

#[test]
fn decimal_forms() {
    assert_eq!(decimal_string(0), "0");
    assert_eq!(decimal_string(42), "42");
    assert_eq!(decimal_string(u64::MAX), "18446744073709551615");
}

#[test]
fn project_id_lists() {
    assert_eq!(format_project_ids(&vec![1, 42, 756]), "1,42,756");
    assert_eq!(format_project_ids(&vec![]), "");
    assert_eq!(parse_project_ids("1,42,756"), vec![1, 42, 756]);
    assert_eq!(parse_project_ids("1, 2,x,,+3,18446744073709551616,18446744073709551615"), vec![1, 3, u64::MAX]);
    assert_eq!(parse_project_ids(""), Vec::<u64>::new());
    assert_eq!(parse_project_ids("+"), Vec::<u64>::new());
}

#[test]
fn truncation() {
    assert_eq!("short".to_string().truncated(10), "short");
    assert_eq!("exactly".to_string().truncated(7), "exactly");
    assert_eq!("a long title".to_string().truncated(7), "a lo...");
    assert_eq!("été à la plage".to_string().truncated(6), "été...");
}
