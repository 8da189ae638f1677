use github_actions_editor::models::workflow::{Job, Step, Workflow};
use github_actions_editor::ui::labels::{
    cache_status_text, connection_text, job_label, rate_limit_text, sidebar_jobs, step_count_text, step_heading,
    step_label, workflow_title,
};

#[test]
fn step_label_prefers_name_then_uses_then_run() {
    let mut s = Step::default();
    assert_eq!(step_label(&s), "Step");
    s.run = Some("echo hello".to_string());
    assert_eq!(step_label(&s), "echo hello");
    s.run = Some("a".repeat(40));
    assert_eq!(step_label(&s), "a".repeat(30));
    s.uses = Some("actions/checkout@v4".to_string());
    assert_eq!(step_label(&s), "actions/checkout@v4");
    s.name = Some("Checkout".to_string());
    assert_eq!(step_label(&s), "Checkout");
}

#[test]
fn job_labels_and_counts() {
    let mut j = Job::default();
    assert_eq!(job_label(&j, "build"), "build");
    j.name = Some("Build".to_string());
    assert_eq!(job_label(&j, "build"), "Build");
    assert_eq!(step_count_text(&j), "0 steps");
    j.steps.push(Step::default());
    assert_eq!(step_count_text(&j), "1 steps");
    assert_eq!(step_heading(0), "Step 1");
}

#[test]
fn status_bar_texts() {
    assert_eq!(rate_limit_text(Some(4999)), "API: 4999/5000");
    assert_eq!(rate_limit_text(None), "");
    assert_eq!(connection_text(Some("octocat")), "Connected as octocat");
    assert_eq!(connection_text(None), "Not connected");
    assert_eq!(cache_status_text(3, "1.5 KB"), "Cache: 3 entries, 1.5 KB");
}

#[test]
fn sidebar_lists_jobs_and_the_selected_jobs_steps() {
    let mut wf = Workflow::default();
    assert_eq!(workflow_title(&wf), "Untitled");
    wf.name = Some("CI".to_string());
    assert_eq!(workflow_title(&wf), "CI");
    let mut build = Job::default();
    build.name = Some("Build".to_string());
    let mut step = Step::default();
    step.run = Some("cargo build".to_string());
    build.steps.push(step);
    build.steps.push(Step::default());
    wf.jobs.insert("build".to_string(), build);
    wf.jobs.insert("test".to_string(), Job::default());

    let items = sidebar_jobs(&wf, Some("build"));
    assert_eq!(items.len(), 2);
    assert_eq!((items[0].id.as_str(), items[0].label.as_str(), items[0].step_count.as_str()), ("build", "Build", "2 steps"));
    assert!(items[0].selected);
    assert_eq!(items[0].step_labels, vec!["cargo build".to_string(), "Step".to_string()]);
    assert_eq!((items[1].id.as_str(), items[1].label.as_str(), items[1].step_count.as_str()), ("test", "test", "0 steps"));
    assert!(!items[1].selected && items[1].step_labels.is_empty());

    let none = sidebar_jobs(&wf, None);
    assert!(none.iter().all(|i| !i.selected && i.step_labels.is_empty()));
}
