use github_actions_editor::app::{App, Command, EditorContent, Message, Screen, ScreenView};
use github_actions_editor::cache::store::CacheStore;
use github_actions_editor::models::workflow::{Job, RunsOn, Workflow};

fn app() -> App {
    App::new(true, CacheStore::new("/c".to_string())).0
}

fn app_with_job() -> App {
    let mut a = app();
    a.update(Message::NewWorkflow);
    a.update(Message::AddJob);
    a
}

#[test]
fn new_app_screens() {
    let (a, cmd) = App::new(true, CacheStore::new("/c".to_string()));
    assert_eq!(a.screen, Screen::Editor);
    assert!(matches!(cmd, Command::LoadFeatured));
    let (b, cmd) = App::new(false, CacheStore::new("/c".to_string()));
    assert_eq!(b.screen, Screen::Auth);
    assert!(matches!(cmd, Command::Idle));
    assert!(b.workflow.is_none() && b.username.is_none() && !b.is_loading);
}

#[test]
fn token_flow() {
    let mut a = App::new(false, CacheStore::new("/c".to_string())).0;
    a.error_message = Some("old".to_string());
    a.update(Message::TokenInputChanged("ghp_x".to_string()));
    assert_eq!(a.token_input, "ghp_x");
    assert!(a.error_message.is_none());
    match a.update(Message::SubmitToken) {
        Command::ValidateToken(t) => assert_eq!(t, "ghp_x"),
        _ => panic!("expected ValidateToken"),
    }
    assert!(a.is_loading);
    let cmd = a.update(Message::AuthResult(Ok("octocat".to_string())));
    assert!(matches!(cmd, Command::LoadFeatured));
    assert_eq!(a.screen, Screen::Editor);
    assert_eq!(a.username.as_deref(), Some("octocat"));
    assert_eq!(a.token_input, "");
    assert!(!a.is_loading);
}

#[test]
fn failed_auth_shows_error() {
    let mut a = App::new(false, CacheStore::new("/c".to_string())).0;
    a.update(Message::SubmitToken);
    a.update(Message::AuthResult(Err("bad".to_string())));
    assert_eq!(a.error_message.as_deref(), Some("bad"));
    assert!(!a.is_loading);
    assert_eq!(a.screen, Screen::Auth);
}

#[test]
fn logout_resets_session() {
    let mut a = app_with_job();
    a.username = Some("me".to_string());
    let cmd = a.update(Message::Logout);
    assert!(matches!(cmd, Command::Logout));
    assert!(a.username.is_none() && a.workflow.is_none() && a.marketplace_actions.is_empty());
    assert_eq!(a.screen, Screen::Auth);
}

#[test]
fn new_workflow_then_add_jobs() {
    let mut a = app_with_job();
    assert_eq!(a.selected_job.as_deref(), Some("job_1"));
    a.update(Message::AddJob);
    assert_eq!(a.selected_job.as_deref(), Some("job_2"));
    let wf = a.workflow.as_ref().unwrap();
    assert_eq!(wf.jobs.keys(), vec!["job_1".to_string(), "job_2".to_string()]);
    assert!(wf.jobs.get("job_1").unwrap().steps.is_empty());
}

#[test]
fn add_job_without_workflow_does_nothing() {
    let mut a = app();
    a.update(Message::AddJob);
    assert!(a.workflow.is_none() && a.selected_job.is_none());
}

#[test]
fn remove_selected_job_moves_selection() {
    let mut a = app_with_job();
    a.update(Message::AddJob);
    a.update(Message::SelectJob("job_1".to_string()));
    a.update(Message::RemoveJob("job_1".to_string()));
    assert_eq!(a.selected_job.as_deref(), Some("job_2"));
    a.update(Message::RemoveJob("job_2".to_string()));
    assert!(a.selected_job.is_none());
    assert_eq!(a.workflow.as_ref().unwrap().jobs.len(), 0);
}

#[test]
fn remove_other_job_keeps_selection() {
    let mut a = app_with_job();
    a.update(Message::AddJob);
    a.update(Message::RemoveJob("job_1".to_string()));
    assert_eq!(a.selected_job.as_deref(), Some("job_2"));
}

#[test]
fn job_name_and_runner() {
    let mut a = app_with_job();
    a.update(Message::JobNameChanged("job_1".to_string(), "Build".to_string()));
    a.update(Message::JobRunsOnChanged("job_1".to_string(), "ubuntu-latest".to_string()));
    let job = a.workflow.as_ref().unwrap().jobs.get("job_1").unwrap();
    assert_eq!(job.name.as_deref(), Some("Build"));
    assert!(matches!(&job.runs_on, RunsOn::Single(r) if r == "ubuntu-latest"));
    a.update(Message::JobNameChanged("job_1".to_string(), String::new()));
    assert!(a.workflow.as_ref().unwrap().jobs.get("job_1").unwrap().name.is_none());
    a.update(Message::JobNameChanged("missing".to_string(), "X".to_string()));
    assert_eq!(a.workflow.as_ref().unwrap().jobs.len(), 1);
}

fn job(a: &App) -> &Job {
    a.workflow.as_ref().unwrap().jobs.get("job_1").unwrap()
}

#[test]
fn steps_edit_cycle() {
    let mut a = app_with_job();
    a.update(Message::AddStep("job_1".to_string()));
    assert_eq!(a.selected_step, Some(0));
    a.update(Message::AddStep("job_1".to_string()));
    assert_eq!(a.selected_step, Some(1));
    a.update(Message::StepRunChanged("job_1".to_string(), 0, "make".to_string()));
    assert_eq!(job(&a).steps[0].run.as_deref(), Some("make"));
    a.update(Message::StepUsesChanged("job_1".to_string(), 0, "actions/checkout@v4".to_string()));
    assert_eq!(job(&a).steps[0].uses.as_deref(), Some("actions/checkout@v4"));
    assert!(job(&a).steps[0].run.is_none());
    a.update(Message::StepRunChanged("job_1".to_string(), 0, "make".to_string()));
    assert!(job(&a).steps[0].uses.is_none());
    a.update(Message::StepNameChanged("job_1".to_string(), 1, "Test".to_string()));
    assert_eq!(job(&a).steps[1].name.as_deref(), Some("Test"));
    a.update(Message::RemoveStep("job_1".to_string(), 5));
    assert_eq!(job(&a).steps.len(), 2);
    assert_eq!(a.selected_step, Some(1));
    a.update(Message::RemoveStep("job_1".to_string(), 0));
    assert_eq!(job(&a).steps.len(), 1);
    assert_eq!(a.selected_step, None);
    assert_eq!(job(&a).steps[0].name.as_deref(), Some("Test"));
}

#[test]
fn action_selected_fills_selected_step() {
    let mut a = app_with_job();
    a.update(Message::AddStep("job_1".to_string()));
    a.update(Message::StepRunChanged("job_1".to_string(), 0, "ls".to_string()));
    a.update(Message::SelectStep("job_1".to_string(), 0));
    a.update(Message::ActionSelected("actions/cache".to_string()));
    assert_eq!(job(&a).steps[0].uses.as_deref(), Some("actions/cache"));
    assert!(job(&a).steps[0].run.is_none());
}

#[test]
fn search_needs_two_bytes() {
    let mut a = app();
    assert!(matches!(a.update(Message::SearchActionsChanged("a".to_string())), Command::Idle));
    assert_eq!(a.action_search_query, "a");
    assert!(matches!(a.update(Message::SearchActionsChanged("é".to_string())), Command::SearchMarketplace { .. }));
    match a.update(Message::SearchActionsChanged("node".to_string())) {
        Command::SearchMarketplace { query, page, per_page } => {
            assert_eq!(query, "node");
            assert_eq!((page, per_page), (1, 30));
        }
        _ => panic!("expected a search"),
    }
}

#[test]
fn cache_clear_and_errors() {
    let mut a = app();
    a.cache.set("k", vec![1]);
    match a.update(Message::ClearCache) {
        Command::ClearCacheDir(d) => assert_eq!(d, "/c"),
        _ => panic!("expected ClearCacheDir"),
    }
    assert_eq!(a.cache.memory_len(), 0);
    a.update(Message::CacheCleared(Err("busy".to_string())));
    assert_eq!(a.error_message.as_deref(), Some("Failed to clear cache: busy"));
    a.update(Message::Error("boom".to_string()));
    assert_eq!(a.error_message.as_deref(), Some("boom"));
}

#[test]
fn loaded_workflow_and_navigation() {
    let mut a = app();
    let mut wf = Workflow::default();
    wf.name = Some("CI".to_string());
    a.update(Message::WorkflowLoaded(Ok(wf)));
    assert_eq!(a.workflow.as_ref().unwrap().name.as_deref(), Some("CI"));
    a.update(Message::WorkflowLoaded(Err("parse".to_string())));
    assert_eq!(a.error_message.as_deref(), Some("parse"));
    a.update(Message::NavigateTo(Screen::Settings));
    assert_eq!(a.screen, Screen::Settings);
    assert!(matches!(a.update(Message::Nothing), Command::Idle));
}

#[test]
fn edits_of_a_missing_job_change_nothing() {
    let mut a = app_with_job();
    a.update(Message::AddStep("job_1".to_string()));
    let before = format!("{:?}", a.workflow);
    let msgs = vec![
        Message::JobNameChanged("nope".to_string(), "x".to_string()),
        Message::JobRunsOnChanged("nope".to_string(), "x".to_string()),
        Message::AddStep("nope".to_string()),
        Message::RemoveStep("nope".to_string(), 0),
        Message::StepNameChanged("nope".to_string(), 0, "x".to_string()),
        Message::StepUsesChanged("nope".to_string(), 0, "x".to_string()),
        Message::StepRunChanged("nope".to_string(), 0, "x".to_string()),
    ];
    for m in msgs {
        let step = a.selected_step;
        let job = a.selected_job.clone();
        assert!(matches!(a.update(m), Command::Idle));
        assert_eq!(format!("{:?}", a.workflow), before);
        assert_eq!(a.selected_step, step);
        assert_eq!(a.selected_job, job);
    }
}

#[test]
fn add_job_overwrites_a_job_with_the_same_name() {
    let mut a = app();
    a.update(Message::NewWorkflow);
    a.update(Message::AddJob);
    a.update(Message::AddJob);
    a.update(Message::AddStep("job_2".to_string()));
    a.update(Message::RemoveJob("job_1".to_string()));
    // One job is left, so the next is named job_2 again: it replaces the old one, blank.
    a.update(Message::AddJob);
    assert_eq!(a.selected_job.as_deref(), Some("job_2"));
    let wf = a.workflow.as_ref().unwrap();
    assert_eq!(wf.jobs.len(), 1);
    assert!(wf.jobs.get("job_2").unwrap().steps.is_empty());
}

#[test]
fn screen_view_follows_the_state() {
    let a = App::new(false, CacheStore::new("/c".to_string())).0;
    assert_eq!(a.screen_view(), ScreenView::Auth);
    let mut a = app();
    assert_eq!(a.screen_view(), ScreenView::NoWorkflow);
    a.update(Message::NewWorkflow);
    assert_eq!(a.screen_view(), ScreenView::Editor(EditorContent::SelectJobHint));
    a.update(Message::AddJob);
    assert_eq!(a.screen_view(), ScreenView::Editor(EditorContent::Job("job_1".to_string())));
    a.update(Message::SelectJob("gone".to_string()));
    assert_eq!(a.screen_view(), ScreenView::Editor(EditorContent::JobNotFound));
    a.update(Message::NavigateTo(Screen::Settings));
    assert_eq!(a.screen_view(), ScreenView::Settings);
}

#[test]
fn steps_never_hold_both_an_action_and_a_command() {
    let mut a = app_with_job();
    let id = "job_1".to_string();
    a.update(Message::AddStep(id.clone()));
    a.update(Message::AddStep(id.clone()));
    a.update(Message::StepRunChanged(id.clone(), 0, "make".to_string()));
    a.update(Message::StepUsesChanged(id.clone(), 0, "actions/checkout@v4".to_string()));
    a.update(Message::StepUsesChanged(id.clone(), 1, "actions/cache@v4".to_string()));
    a.update(Message::StepRunChanged(id.clone(), 1, "cargo test".to_string()));
    a.update(Message::SelectStep(id.clone(), 0));
    a.update(Message::ActionSelected("actions/setup-node@v4".to_string()));
    for s in &a.workflow.as_ref().unwrap().jobs.get("job_1").unwrap().steps {
        assert!(!(s.uses.is_some() && s.run.is_some()));
    }
}

