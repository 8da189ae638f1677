//! The editor's state and how each message changes it.
//!
//! `App::update` is the editor's transition function: it changes the state
//! and names the outside work to do next as a `Command` (validate a token,
//! load or search the marketplace, log out, empty the cache directory). The
//! caller performs the command and feeds its result back as a message.

use crate::cache::store::CacheStore;
use crate::models::marketplace::MarketplaceAction;
use crate::models::workflow::{Job, RunsOn, Step, Workflow};
use crate::text::{decimal, push_decimal, utf8_len};
use vstd::prelude::*;

verus! {

/// Application screens.
#[derive(Debug, Clone, Copy, PartialEq, Eq, Structural)]
pub enum Screen {
    Auth,
    Editor,
    Settings,
}

/// Application messages.
#[derive(Debug)]
pub enum Message {
    NavigateTo(Screen),
    TokenInputChanged(String),
    SubmitToken,
    AuthResult(Result<String, String>),
    Logout,
    NewWorkflow,
    OpenWorkflow,
    SaveWorkflow,
    WorkflowLoaded(Result<Workflow, String>),
    WorkflowSaved(Result<(), String>),
    SelectJob(String),
    AddJob,
    RemoveJob(String),
    JobNameChanged(String, String),
    JobRunsOnChanged(String, String),
    SelectStep(String, usize),
    AddStep(String),
    RemoveStep(String, usize),
    StepNameChanged(String, usize, String),
    StepUsesChanged(String, usize, String),
    StepRunChanged(String, usize, String),
    SearchActionsChanged(String),
    ActionSelected(String),
    ActionVersionSelected(String, String),
    MarketplaceLoaded(Result<Vec<MarketplaceAction>, String>),
    ClearCache,
    CacheCleared(Result<(), String>),
    Nothing,
    Error(String),
}

/// Outside work that a message calls for.
#[derive(Debug, Clone)]
pub enum Command {
    /// Nothing to do.
    Idle,
    /// Validate this token with GitHub, store it if valid, and report `AuthResult`.
    ValidateToken(String),
    /// Load the featured actions and report `MarketplaceLoaded`.
    LoadFeatured,
    /// Search the marketplace for this query, this page of results of this
    /// size, and report `MarketplaceLoaded` with the page's actions.
    SearchMarketplace { query: String, page: u32, per_page: u32 },
    /// Delete the stored token (the outcome is not reported).
    Logout,
    /// Empty this cache directory and report `CacheCleared`.
    ClearCacheDir(String),
}

/// Application state.
pub struct App {
    /// Current screen.
    pub screen: Screen,
    /// Cache store.
    pub cache: CacheStore,
    /// Workflow being edited.
    pub workflow: Option<Workflow>,
    /// File of the workflow being edited.
    pub workflow_path: Option<String>,
    /// Marketplace actions on show.
    pub marketplace_actions: Vec<MarketplaceAction>,
    /// Action search query.
    pub action_search_query: String,
    /// Selected job id.
    pub selected_job: Option<String>,
    /// Selected step index within the selected job.
    pub selected_step: Option<usize>,
    /// Token typed on the auth screen.
    pub token_input: String,
    /// Current error message.
    pub error_message: Option<String>,
    /// Waiting for a token validation.
    pub is_loading: bool,
    /// Authenticated username.
    pub username: Option<String>,
    /// API rate limit remaining.
    pub rate_limit: Option<u32>,
}

/// `None` for an empty text, else the text.
pub open spec fn nonempty(s: String) -> Option<String> {
    if s@.len() == 0 {
        None
    } else {
        Some(s)
    }
}

fn nonempty_of(s: String) -> (r: Option<String>)
    ensures
        r == nonempty(s),
{
    if s.as_str().is_empty() {
        None
    } else {
        Some(s)
    }
}

/// A change to one job.
pub enum JobEdit {
    SetName(Option<String>),
    SetRunsOn(String),
    AddStep,
    RemoveStep(usize),
    SetStepName(usize, Option<String>),
    SetStepUses(usize, Option<String>),
    SetStepRun(usize, Option<String>),
}

/// `new` is `old` after `edit`.
pub open spec fn job_edited(old: Job, new: Job, edit: JobEdit) -> bool {
    match edit {
        JobEdit::SetName(n) => new == Job { name: n, ..old },
        JobEdit::SetRunsOn(r) => new == Job { runs_on: RunsOn::Single(r), ..old },
        JobEdit::AddStep => {
            &&& old.same_but_steps(new)
            &&& new.steps@.len() == old.steps@.len() + 1
            &&& new.steps@.drop_last() == old.steps@
            &&& new.steps@.last().is_blank()
        },
        JobEdit::RemoveStep(i) => if i < old.steps@.len() {
            old.same_but_steps(new) && new.steps@ == old.steps@.remove(i as int)
        } else {
            new == old
        },
        JobEdit::SetStepName(i, n) => if i < old.steps@.len() {
            old.same_but_steps(new) && new.steps@ == old.steps@.update(
                i as int,
                Step { name: n, ..old.steps@[i as int] },
            )
        } else {
            new == old
        },
        JobEdit::SetStepUses(i, u) => if i < old.steps@.len() {
            old.same_but_steps(new) && new.steps@ == old.steps@.update(
                i as int,
                Step { uses: u, run: None, ..old.steps@[i as int] },
            )
        } else {
            new == old
        },
        JobEdit::SetStepRun(i, r) => if i < old.steps@.len() {
            old.same_but_steps(new) && new.steps@ == old.steps@.update(
                i as int,
                Step { run: r, uses: None, ..old.steps@[i as int] },
            )
        } else {
            new == old
        },
    }
}

/// Applies `edit` to `job`.
fn edit_job(job: &mut Job, edit: JobEdit)
    ensures
        job_edited(*old(job), *final(job), edit),
{
    match edit {
        JobEdit::SetName(n) => {
            job.name = n;
        },
        JobEdit::SetRunsOn(r) => {
            job.runs_on = RunsOn::Single(r);
        },
        JobEdit::AddStep => {
            job.steps.push(Step::default());
            proof {
                assert(job.steps@.drop_last() =~= old(job).steps@);
            }
        },
        JobEdit::RemoveStep(i) => {
            if i < job.steps.len() {
                let _ = job.steps.remove(i);
            }
        },
        JobEdit::SetStepName(i, n) => {
            if i < job.steps.len() {
                let mut step = job.steps.remove(i);
                step.name = n;
                job.steps.insert(i, step);
                proof {
                    assert(job.steps@ =~= old(job).steps@.update(i as int, Step { name: n, ..old(job).steps@[i as int] }));
                }
            }
        },
        JobEdit::SetStepUses(i, u) => {
            if i < job.steps.len() {
                let mut step = job.steps.remove(i);
                step.uses = u;
                step.run = None;
                job.steps.insert(i, step);
                proof {
                    assert(job.steps@ =~= old(job).steps@.update(
                        i as int,
                        Step { uses: u, run: None, ..old(job).steps@[i as int] },
                    ));
                }
            }
        },
        JobEdit::SetStepRun(i, r) => {
            if i < job.steps.len() {
                let mut step = job.steps.remove(i);
                step.run = r;
                step.uses = None;
                job.steps.insert(i, step);
                proof {
                    assert(job.steps@ =~= old(job).steps@.update(
                        i as int,
                        Step { run: r, uses: None, ..old(job).steps@[i as int] },
                    ));
                }
            }
        },
    }
}

/// `new` is `old` with the job `id` changed by `edit`; without such a job,
/// `new` is `old`.
pub open spec fn workflow_job_edited(old: Workflow, new: Workflow, id: Seq<char>, edit: JobEdit) -> bool {
    if old.jobs@.contains_key(id) {
        &&& old.same_but_jobs(new)
        &&& new.jobs@ == old.jobs@.insert(id, new.jobs@[id])
        &&& new.jobs.key_order() == old.jobs.key_order()
        &&& job_edited(old.jobs@[id], new.jobs@[id], edit)
    } else {
        new == old
    }
}

/// Applies `edit` to the job `id` of `wf`, if there is one; hands back the
/// number of steps the job has afterwards.
fn edit_workflow_job(wf: &mut Workflow, id: &str, edit: JobEdit) -> (steps: Option<usize>)
    ensures
        workflow_job_edited(*old(wf), *final(wf), id@, edit),
        steps is Some == old(wf).jobs@.contains_key(id@),
        steps matches Some(n) ==> n == final(wf).jobs@[id@].steps@.len(),
{
    if !wf.jobs.contains_key(id) {
        return None;
    }
    let ghost before = wf.jobs@;
    match wf.jobs.replace(id, Job::default()) {
        Some(mut job) => {
            edit_job(&mut job, edit);
            let n = job.steps.len();
            let ghost j = job;
            let _ = wf.jobs.replace(id, job);
            proof {
                assert(wf.jobs@ =~= before.insert(id@, j));
                assert(*final(wf) == Workflow { jobs: final(wf).jobs, ..*old(wf) });
            }
            Some(n)
        },
        None => None,
    }
}

/// Whether the message's job edit, if any, can be carried out: adding a job
/// needs a number for it.
pub open spec fn message_allowed(app: App, msg: Message) -> bool {
    match msg {
        Message::AddJob => app.workflow matches Some(wf) ==> wf.jobs@.dom().len() < usize::MAX,
        _ => true,
    }
}

/// The job and step that `ActionSelected` fills in, when both are selected.
pub open spec fn selection(app: App) -> Option<(Seq<char>, usize)> {
    match (app.selected_job, app.selected_step) {
        (Some(j), Some(s)) => Some((j@, s)),
        _ => None,
    }
}

/// `new`'s workflow is `old`'s with the job `id` changed by `edit` (no
/// change without a workflow).
pub open spec fn edits_workflow(old: App, new: App, id: Seq<char>, edit: JobEdit) -> bool {
    match old.workflow {
        Some(wf) => new.workflow matches Some(nwf) && workflow_job_edited(wf, nwf, id, edit),
        None => new.workflow is None,
    }
}

/// How `update` changes the state and what it asks for.
pub open spec fn update_spec(old: App, msg: Message, new: App, cmd: Command) -> bool {
    match msg {
        Message::NavigateTo(s) => new == App { screen: s, ..old } && cmd is Idle,
        Message::TokenInputChanged(t) => new == App { token_input: t, error_message: None, ..old }
            && cmd is Idle,
        Message::SubmitToken => new == App { is_loading: true, error_message: None, ..old } && (
        cmd matches Command::ValidateToken(t) && t == old.token_input),
        Message::AuthResult(Ok(u)) => {
            &&& new == App {
                is_loading: false,
                username: Some(u),
                screen: Screen::Editor,
                token_input: new.token_input,
                ..old
            }
            &&& new.token_input@.len() == 0
            &&& cmd is LoadFeatured
        },
        Message::AuthResult(Err(e)) => new == App { is_loading: false, error_message: Some(e), ..old }
            && cmd is Idle,
        Message::Logout => {
            &&& new == App {
                username: None,
                screen: Screen::Auth,
                workflow: None,
                marketplace_actions: new.marketplace_actions,
                ..old
            }
            &&& new.marketplace_actions@.len() == 0
            &&& cmd is Logout
        },
        Message::NewWorkflow => {
            &&& new == App {
                workflow: new.workflow,
                workflow_path: None,
                selected_job: None,
                selected_step: None,
                ..old
            }
            &&& new.workflow matches Some(w) && w.is_blank()
            &&& cmd is Idle
        },
        Message::WorkflowLoaded(Ok(w)) => new == App { workflow: Some(w), error_message: None, ..old }
            && cmd is Idle,
        Message::WorkflowLoaded(Err(e)) => new == App { error_message: Some(e), ..old } && cmd is Idle,
        Message::WorkflowSaved(Err(e)) => new == App { error_message: Some(e), ..old } && cmd is Idle,
        Message::SelectJob(id) => new == App { selected_job: Some(id), selected_step: None, ..old }
            && cmd is Idle,
        Message::AddJob => match old.workflow {
            Some(wf) => {
                &&& new == App { workflow: new.workflow, selected_job: new.selected_job, ..old }
                &&& new.selected_job matches Some(k) && k@ == "job_"@ + decimal(
                    (wf.jobs@.dom().len() + 1) as nat,
                )
                &&& new.workflow matches Some(nwf) && wf.same_but_jobs(nwf) && nwf.jobs@ == wf.jobs@.insert(
                    new.selected_job->0@,
                    nwf.jobs@[new.selected_job->0@],
                ) && nwf.jobs@[new.selected_job->0@].is_blank()
                &&& cmd is Idle
            },
            None => new == old && cmd is Idle,
        },
        Message::RemoveJob(id) => match old.workflow {
            Some(wf) => {
                &&& new == App { workflow: new.workflow, selected_job: new.selected_job, ..old }
                &&& new.workflow matches Some(nwf) && wf.same_but_jobs(nwf) && nwf.jobs@ == wf.jobs@.remove(id@)
                &&& if old.selected_job matches Some(s) && s@ == id@ {
                    match new.selected_job {
                        None => nwf_is_empty(new),
                        Some(k) => first_job_of(new) == Some(k@),
                    }
                } else {
                    new.selected_job == old.selected_job
                }
                &&& cmd is Idle
            },
            None => new == old && cmd is Idle,
        },
        Message::JobNameChanged(id, name) => new == App { workflow: new.workflow, ..old }
            && edits_workflow(old, new, id@, JobEdit::SetName(nonempty(name))) && cmd is Idle,
        Message::JobRunsOnChanged(id, r) => new == App { workflow: new.workflow, ..old } && edits_workflow(
            old,
            new,
            id@,
            JobEdit::SetRunsOn(r),
        ) && cmd is Idle,
        Message::SelectStep(id, i) => new == App { selected_job: Some(id), selected_step: Some(i), ..old }
            && cmd is Idle,
        Message::AddStep(id) => {
            &&& new == App { workflow: new.workflow, selected_step: new.selected_step, ..old }
            &&& edits_workflow(old, new, id@, JobEdit::AddStep)
            &&& if has_job(old, id@) {
                new.selected_step matches Some(s) && s == old.workflow->0.jobs@[id@].steps@.len()
            } else {
                new.selected_step == old.selected_step
            }
            &&& cmd is Idle
        },
        Message::RemoveStep(id, i) => {
            &&& new == App { workflow: new.workflow, selected_step: new.selected_step, ..old }
            &&& edits_workflow(old, new, id@, JobEdit::RemoveStep(i))
            &&& if has_job(old, id@) && i < old.workflow->0.jobs@[id@].steps@.len() {
                new.selected_step is None
            } else {
                new.selected_step == old.selected_step
            }
            &&& cmd is Idle
        },
        Message::StepNameChanged(id, i, n) => new == App { workflow: new.workflow, ..old } && edits_workflow(
            old,
            new,
            id@,
            JobEdit::SetStepName(i, nonempty(n)),
        ) && cmd is Idle,
        Message::StepUsesChanged(id, i, u) => new == App { workflow: new.workflow, ..old } && edits_workflow(
            old,
            new,
            id@,
            JobEdit::SetStepUses(i, nonempty(u)),
        ) && cmd is Idle,
        Message::StepRunChanged(id, i, r) => new == App { workflow: new.workflow, ..old } && edits_workflow(
            old,
            new,
            id@,
            JobEdit::SetStepRun(i, nonempty(r)),
        ) && cmd is Idle,
        Message::SearchActionsChanged(q) => {
            &&& new == App { action_search_query: q, ..old }
            &&& if utf8_len(q@) >= 2 {
                cmd matches Command::SearchMarketplace { query: s, page: 1, per_page: 30 } && s == q
            } else {
                cmd is Idle
            }
        },
        Message::ActionSelected(r) => {
            &&& new == App { workflow: new.workflow, ..old }
            &&& match selection(old) {
                Some((id, i)) => edits_workflow(old, new, id, JobEdit::SetStepUses(i, Some(r))),
                None => new == old,
            }
            &&& cmd is Idle
        },
        Message::MarketplaceLoaded(Ok(a)) => new == App { marketplace_actions: a, ..old } && cmd is Idle,
        Message::ClearCache => {
            &&& new == App { cache: new.cache, ..old }
            &&& new.cache.memory() == Map::<Seq<char>, Seq<u8>>::empty()
            &&& new.cache.dir() == old.cache.dir()
            &&& cmd matches Command::ClearCacheDir(d) && d@ == old.cache.dir()
        },
        Message::CacheCleared(Err(e)) => {
            &&& new == App { error_message: new.error_message, ..old }
            &&& (new.error_message matches Some(m) && m@ == "Failed to clear cache: "@ + e@)
            &&& cmd is Idle
        },
        Message::Error(e) => new == App { error_message: Some(e), ..old } && cmd is Idle,
        // OpenWorkflow, SaveWorkflow, ActionVersionSelected, Nothing,
        // WorkflowSaved(Ok), MarketplaceLoaded(Err), CacheCleared(Ok)
        _ => new == old && cmd is Idle,
    }
}

/// The workflow of `app` has no jobs (or there is no workflow).
pub open spec fn nwf_is_empty(app: App) -> bool {
    match app.workflow {
        Some(wf) => wf.jobs@.dom().is_empty(),
        None => true,
    }
}

/// The first job id of `app`'s workflow, if any.
pub open spec fn first_job_of(app: App) -> Option<Seq<char>> {
    match app.workflow {
        Some(wf) => if wf.jobs.key_order().len() > 0 {
            Some(wf.jobs.key_order()[0])
        } else {
            None
        },
        None => None,
    }
}

/// The current workflow has a job `id`.
pub open spec fn has_job(app: App, id: Seq<char>) -> bool {
    app.workflow matches Some(wf) && wf.jobs@.contains_key(id)
}

/// The number of steps of the job `id` of the current workflow.
pub open spec fn steps_after(app: App, id: Seq<char>) -> int {
    app.workflow->0.jobs@[id].steps@.len() as int
}

/// What the editor's main area shows.
#[derive(Debug, Clone, PartialEq, Eq)]
pub enum EditorContent {
    /// No job is selected: a hint to pick one from the sidebar.
    SelectJobHint,
    /// The selected job is not in the workflow.
    JobNotFound,
    /// The selected job, by id, with its steps.
    Job(String),
}

/// What the window shows.
#[derive(Debug, Clone, PartialEq, Eq)]
pub enum ScreenView {
    /// The login form.
    Auth,
    /// The editor without a workflow: an invitation to create one.
    NoWorkflow,
    /// The editor: sidebar, main area and status bar.
    Editor(EditorContent),
    /// The settings screen.
    Settings,
}

/// What the window shows for `app`.
pub open spec fn spec_screen_view(app: App) -> ScreenView {
    match app.screen {
        Screen::Auth => ScreenView::Auth,
        Screen::Settings => ScreenView::Settings,
        Screen::Editor => match app.workflow {
            None => ScreenView::NoWorkflow,
            Some(wf) => match app.selected_job {
                None => ScreenView::Editor(EditorContent::SelectJobHint),
                Some(id) => if wf.jobs@.contains_key(id@) {
                    ScreenView::Editor(EditorContent::Job(id))
                } else {
                    ScreenView::Editor(EditorContent::JobNotFound)
                },
            },
        },
    }
}

impl App {
    /// The initial state: the editor when a token is stored (then the
    /// featured actions are loaded), else the auth screen.
    pub fn new(is_authenticated: bool, cache: CacheStore) -> (r: (App, Command))
        ensures
            r.0.screen == (if is_authenticated { Screen::Editor } else { Screen::Auth }),
            r.0.cache == cache,
            r.0.workflow is None,
            r.0.workflow_path is None,
            r.0.marketplace_actions@.len() == 0,
            r.0.action_search_query@.len() == 0,
            r.0.selected_job is None,
            r.0.selected_step is None,
            r.0.token_input@.len() == 0,
            r.0.error_message is None,
            !r.0.is_loading,
            r.0.username is None,
            r.0.rate_limit is None,
            if is_authenticated {
                r.1 is LoadFeatured
            } else {
                r.1 is Idle
            },
    {
        let app = App {
            screen: if is_authenticated {
                Screen::Editor
            } else {
                Screen::Auth
            },
            cache,
            workflow: None,
            workflow_path: None,
            marketplace_actions: Vec::new(),
            action_search_query: String::new(),
            selected_job: None,
            selected_step: None,
            token_input: String::new(),
            error_message: None,
            is_loading: false,
            username: None,
            rate_limit: None,
        };
        let cmd = if is_authenticated {
            Command::LoadFeatured
        } else {
            Command::Idle
        };
        (app, cmd)
    }

    /// What the window shows for this state.
    pub fn screen_view(&self) -> (v: ScreenView)
        ensures
            v == spec_screen_view(*self),
    {
        match self.screen {
            Screen::Auth => ScreenView::Auth,
            Screen::Settings => ScreenView::Settings,
            Screen::Editor => match &self.workflow {
                None => ScreenView::NoWorkflow,
                Some(wf) => match &self.selected_job {
                    None => ScreenView::Editor(EditorContent::SelectJobHint),
                    Some(id) => if wf.jobs.contains_key(id.as_str()) {
                        ScreenView::Editor(EditorContent::Job(id.clone()))
                    } else {
                        ScreenView::Editor(EditorContent::JobNotFound)
                    },
                },
            },
        }
    }

    /// Applies `edit` to the job `id` of the current workflow, if any.
    fn edit_current(&mut self, id: &str, edit: JobEdit) -> (steps: Option<usize>)
        ensures
            *final(self) == (App { workflow: final(self).workflow, ..*old(self) }),
            edits_workflow(*old(self), *final(self), id@, edit),
            (steps is Some) == has_job(*old(self), id@),
            steps is Some ==> steps_after(*final(self), id@) == steps->0,
    {
        match self.workflow.take() {
            Some(mut wf) => {
                let r = edit_workflow_job(&mut wf, id, edit);
                self.workflow = Some(wf);
                r
            },
            None => None,
        }
    }

    /// Handles a message: changes the state and names the outside work to do.
    pub fn update(&mut self, message: Message) -> (cmd: Command)
        requires
            message_allowed(*old(self), message),
        ensures
            update_spec(*old(self), message, *final(self), cmd),
    {
        match message {
            Message::NavigateTo(screen) => {
                self.screen = screen;
                Command::Idle
            },
            Message::TokenInputChanged(token) => {
                self.token_input = token;
                self.error_message = None;
                Command::Idle
            },
            Message::SubmitToken => {
                self.is_loading = true;
                self.error_message = None;
                Command::ValidateToken(self.token_input.clone())
            },
            Message::AuthResult(result) => {
                self.is_loading = false;
                match result {
                    Ok(username) => {
                        self.username = Some(username);
                        self.screen = Screen::Editor;
                        self.token_input = String::new();
                        Command::LoadFeatured
                    },
                    Err(err) => {
                        self.error_message = Some(err);
                        Command::Idle
                    },
                }
            },
            Message::Logout => {
                self.username = None;
                self.screen = Screen::Auth;
                self.workflow = None;
                self.marketplace_actions = Vec::new();
                Command::Logout
            },
            Message::NewWorkflow => {
                self.workflow = Some(Workflow::default());
                self.workflow_path = None;
                self.selected_job = None;
                self.selected_step = None;
                Command::Idle
            },
            Message::WorkflowLoaded(result) => {
                match result {
                    Ok(workflow) => {
                        self.workflow = Some(workflow);
                        self.error_message = None;
                    },
                    Err(err) => {
                        self.error_message = Some(err);
                    },
                }
                Command::Idle
            },
            Message::WorkflowSaved(result) => {
                if let Err(err) = result {
                    self.error_message = Some(err);
                }
                Command::Idle
            },
            Message::SelectJob(job_id) => {
                self.selected_job = Some(job_id);
                self.selected_step = None;
                Command::Idle
            },
            Message::AddJob => {
                match self.workflow.take() {
                    Some(mut wf) => {
                        let n = wf.jobs.len();
                        let mut job_id = String::new();
                        job_id.push_str("job_");
                        push_decimal(&mut job_id, (n + 1) as u64);
                        let ghost jobs0 = wf.jobs@;
                        let ghost k = job_id@;
                        let _ = wf.jobs.insert(job_id.clone(), Job::default());
                        self.workflow = Some(wf);
                        self.selected_job = Some(job_id);
                        proof {
                            assert(k =~= "job_"@ + decimal((n + 1) as nat));
                        }
                    },
                    None => {},
                }
                Command::Idle
            },
            Message::RemoveJob(job_id) => {
                match self.workflow.take() {
                    Some(mut wf) => {
                        let _ = wf.jobs.remove(job_id.as_str());
                        let was_selected = match &self.selected_job {
                            Some(s) => *s == job_id,
                            None => false,
                        };
                        if was_selected {
                            self.selected_job = wf.jobs.first_key();
                        }
                        self.workflow = Some(wf);
                    },
                    None => {},
                }
                Command::Idle
            },
            Message::JobNameChanged(job_id, name) => {
                let _ = self.edit_current(job_id.as_str(), JobEdit::SetName(nonempty_of(name)));
                Command::Idle
            },
            Message::JobRunsOnChanged(job_id, runs_on) => {
                let _ = self.edit_current(job_id.as_str(), JobEdit::SetRunsOn(runs_on));
                Command::Idle
            },
            Message::SelectStep(job_id, step_idx) => {
                self.selected_job = Some(job_id);
                self.selected_step = Some(step_idx);
                Command::Idle
            },
            Message::AddStep(job_id) => {
                if let Some(n) = self.edit_current(job_id.as_str(), JobEdit::AddStep) {
                    self.selected_step = Some(n - 1);
                }
                Command::Idle
            },
            Message::RemoveStep(job_id, step_idx) => {
                let in_range = match &self.workflow {
                    Some(wf) => match wf.jobs.get(job_id.as_str()) {
                        Some(job) => step_idx < job.steps.len(),
                        None => false,
                    },
                    None => false,
                };
                let _ = self.edit_current(job_id.as_str(), JobEdit::RemoveStep(step_idx));
                if in_range {
                    self.selected_step = None;
                }
                Command::Idle
            },
            Message::StepNameChanged(job_id, step_idx, name) => {
                let _ = self.edit_current(job_id.as_str(), JobEdit::SetStepName(step_idx, nonempty_of(name)));
                Command::Idle
            },
            Message::StepUsesChanged(job_id, step_idx, uses) => {
                let _ = self.edit_current(job_id.as_str(), JobEdit::SetStepUses(step_idx, nonempty_of(uses)));
                Command::Idle
            },
            Message::StepRunChanged(job_id, step_idx, run) => {
                let _ = self.edit_current(job_id.as_str(), JobEdit::SetStepRun(step_idx, nonempty_of(run)));
                Command::Idle
            },
            Message::SearchActionsChanged(query) => {
                let long_enough = query.as_str().len() >= 2;
                self.action_search_query = query.clone();
                if long_enough {
                    Command::SearchMarketplace { query, page: 1, per_page: 30 }
                } else {
                    Command::Idle
                }
            },
            Message::ActionSelected(action_ref) => {
                match (self.selected_job.clone(), self.selected_step) {
                    (Some(job_id), Some(step_idx)) => {
                        let _ = self.edit_current(
                            job_id.as_str(),
                            JobEdit::SetStepUses(step_idx, Some(action_ref)),
                        );
                    },
                    _ => {},
                }
                Command::Idle
            },
            Message::MarketplaceLoaded(result) => {
                if let Ok(actions) = result {
                    self.marketplace_actions = actions;
                }
                Command::Idle
            },
            Message::ClearCache => {
                let dir = self.cache.clear();
                Command::ClearCacheDir(dir)
            },
            Message::CacheCleared(result) => {
                if let Err(err) = result {
                    let mut m = String::new();
                    m.push_str("Failed to clear cache: ");
                    m.push_str(err.as_str());
                    self.error_message = Some(m);
                }
                Command::Idle
            },
            Message::Error(err) => {
                self.error_message = Some(err);
                Command::Idle
            },
            Message::OpenWorkflow | Message::SaveWorkflow | Message::ActionVersionSelected(_, _)
            | Message::Nothing => Command::Idle,
        }
    }
}

/// Choosing an action for a step clears its shell command: a step never
/// holds both.
pub proof fn law_uses_clears_run(old: App, new: App, id: String, i: usize, u: String, cmd: Command)
    requires
        update_spec(old, Message::StepUsesChanged(id, i, u), new, cmd),
        has_job(old, id@),
        i < old.workflow->0.jobs@[id@].steps@.len(),
    ensures
        has_job(new, id@),
        new.workflow->0.jobs@[id@].steps@[i as int].run is None,
        new.workflow->0.jobs@[id@].steps@[i as int].uses == nonempty(u),
{
}

/// Typing a shell command for a step clears its action.
pub proof fn law_run_clears_uses(old: App, new: App, id: String, i: usize, r: String, cmd: Command)
    requires
        update_spec(old, Message::StepRunChanged(id, i, r), new, cmd),
        has_job(old, id@),
        i < old.workflow->0.jobs@[id@].steps@.len(),
    ensures
        has_job(new, id@),
        new.workflow->0.jobs@[id@].steps@[i as int].uses is None,
        new.workflow->0.jobs@[id@].steps@[i as int].run == nonempty(r),
{
}

/// Selecting an action fills in the selected step, and clears its command.
pub proof fn law_action_selected_fills_selected_step(old: App, new: App, r: String, cmd: Command)
    requires
        update_spec(old, Message::ActionSelected(r), new, cmd),
        old.selected_job is Some,
        old.selected_step is Some,
        has_job(old, old.selected_job->0@),
        old.selected_step->0 < old.workflow->0.jobs@[old.selected_job->0@].steps@.len(),
    ensures
        new.workflow->0.jobs@[old.selected_job->0@].steps@[old.selected_step->0 as int].uses == Some(r),
        new.workflow->0.jobs@[old.selected_job->0@].steps@[old.selected_step->0 as int].run is None,
{
}

/// A new step is blank, comes last, and becomes the selected step.
pub proof fn law_add_step_selects_new_step(old: App, new: App, id: String, cmd: Command)
    requires
        update_spec(old, Message::AddStep(id), new, cmd),
        has_job(old, id@),
    ensures
        has_job(new, id@),
        new.selected_step matches Some(s) && s + 1 == new.workflow->0.jobs@[id@].steps@.len(),
        new.workflow->0.jobs@[id@].steps@.last().is_blank(),
{
}

/// Removing the selected job leaves no selection that points at a missing
/// job: the selection moves to a job that remains, or to none.
pub proof fn law_remove_job_keeps_selection_valid(old: App, new: App, id: String, cmd: Command)
    requires
        update_spec(old, Message::RemoveJob(id), new, cmd),
        old.workflow is Some,
        old.selected_job matches Some(s) && s@ == id@,
    ensures
        !new.workflow->0.jobs@.contains_key(id@),
        new.selected_job matches Some(k) ==> new.workflow->0.jobs@.contains_key(k@),
{
    let nwf = new.workflow->0;
    if new.selected_job is Some {
        nwf.jobs.lemma_first_key_in_map();
    }
}

/// Logging out forgets the user, the workflow and the listed actions, and
/// asks for the stored token to be deleted.
pub proof fn law_logout_resets_session(old: App, new: App, cmd: Command)
    requires
        update_spec(old, Message::Logout, new, cmd),
    ensures
        new.username is None,
        new.screen == Screen::Auth,
        new.workflow is None,
        new.marketplace_actions@.len() == 0,
        cmd is Logout,
{
}

/// A successful login leaves the token field empty and loads the featured
/// actions.
pub proof fn law_login_clears_token_input(old: App, new: App, u: String, cmd: Command)
    requires
        update_spec(old, Message::AuthResult(Ok(u)), new, cmd),
    ensures
        new.token_input@.len() == 0,
        new.username == Some(u),
        new.screen == Screen::Editor,
        !new.is_loading,
        cmd is LoadFeatured,
{
}

/// The job that a job or step edit message is about, if it is one.
pub open spec fn job_edit_target(msg: Message) -> Option<Seq<char>> {
    match msg {
        Message::JobNameChanged(id, _) => Some(id@),
        Message::JobRunsOnChanged(id, _) => Some(id@),
        Message::AddStep(id) => Some(id@),
        Message::RemoveStep(id, _) => Some(id@),
        Message::StepNameChanged(id, _, _) => Some(id@),
        Message::StepUsesChanged(id, _, _) => Some(id@),
        Message::StepRunChanged(id, _, _) => Some(id@),
        _ => None,
    }
}

/// An edit of a job that the workflow does not have (or with no workflow
/// open) changes nothing and asks for nothing.
pub proof fn law_edit_of_missing_job_changes_nothing(old: App, msg: Message, new: App, cmd: Command)
    requires
        update_spec(old, msg, new, cmd),
        job_edit_target(msg) matches Some(id) && !has_job(old, id),
    ensures
        new == old,
        cmd is Idle,
{
}

/// Adding a job selects it: the new job is blank and named `job_<n>` after
/// the number of jobs it makes, every other job stays as it was, and unless
/// a job of that name existed (which the new one replaces) the workflow has
/// one job more.
pub proof fn law_add_job_selects_new_job(old: App, new: App, cmd: Command)
    requires
        update_spec(old, Message::AddJob, new, cmd),
        old.workflow is Some,
    ensures
        new.selected_job matches Some(k) && {
            &&& k@ == "job_"@ + decimal((old.workflow->0.jobs@.dom().len() + 1) as nat)
            &&& has_job(new, k@)
            &&& new.workflow->0.jobs@[k@].is_blank()
            &&& forall|other: Seq<char>|
                other != k@ ==> (#[trigger] new.workflow->0.jobs@.contains_key(other)) == old.workflow->0.jobs@.contains_key(other)
                    && (old.workflow->0.jobs@.contains_key(other) ==> new.workflow->0.jobs@[other] == old.workflow->0.jobs@[other])
            &&& !old.workflow->0.jobs@.contains_key(k@) ==> new.workflow->0.jobs@.dom().len()
                == old.workflow->0.jobs@.dom().len() + 1
        },
        cmd is Idle,
{
    old.workflow->0.jobs.lemma_dom_finite();
}

/// A step never holds both an action and a shell command.
pub open spec fn step_unmixed(s: Step) -> bool {
    !(s.uses is Some && s.run is Some)
}

/// No step of the job holds both an action and a shell command.
pub open spec fn job_unmixed(j: Job) -> bool {
    forall|k: int| 0 <= k < j.steps@.len() ==> step_unmixed(#[trigger] j.steps@[k])
}

/// No step of any job of the open workflow holds both an action and a shell
/// command.
pub open spec fn steps_unmixed(app: App) -> bool {
    app.workflow matches Some(wf) ==> forall|id: Seq<char>|
        #[trigger] wf.jobs@.contains_key(id) ==> job_unmixed(wf.jobs@[id])
}

proof fn lemma_job_edit_keeps_unmixed(old: Job, new: Job, edit: JobEdit)
    requires
        job_edited(old, new, edit),
        job_unmixed(old),
    ensures
        job_unmixed(new),
{
    match edit {
        JobEdit::AddStep => {
            assert forall|k: int| 0 <= k < new.steps@.len() implies step_unmixed(#[trigger] new.steps@[k]) by {
                if k < old.steps@.len() {
                    assert(new.steps@[k] == new.steps@.drop_last()[k]);
                }
            }
        },
        JobEdit::RemoveStep(i) => {
            if i < old.steps@.len() {
                assert forall|k: int| 0 <= k < new.steps@.len() implies step_unmixed(#[trigger] new.steps@[k]) by {
                    if k < i {
                        assert(new.steps@[k] == old.steps@[k]);
                    } else {
                        assert(new.steps@[k] == old.steps@[k + 1]);
                    }
                }
            }
        },
        JobEdit::SetStepName(i, n) => {
            if i < old.steps@.len() {
                assert forall|k: int| 0 <= k < new.steps@.len() implies step_unmixed(#[trigger] new.steps@[k]) by {
                    assert(step_unmixed(old.steps@[k]));
                }
            }
        },
        _ => {},
    }
}

proof fn lemma_workflow_edit_keeps_unmixed(old: App, new: App, id: Seq<char>, edit: JobEdit)
    requires
        edits_workflow(old, new, id, edit),
        steps_unmixed(old),
    ensures
        steps_unmixed(new),
{
    if let Some(wf) = old.workflow {
        let nwf = new.workflow->0;
        if wf.jobs@.contains_key(id) {
            lemma_job_edit_keeps_unmixed(wf.jobs@[id], nwf.jobs@[id], edit);
            assert forall|k: Seq<char>| #[trigger] nwf.jobs@.contains_key(k) implies job_unmixed(nwf.jobs@[k]) by {
                if k != id {
                    assert(wf.jobs@.contains_key(k));
                }
            }
        }
    }
}

/// Whether a message installs a workflow from outside (a loaded file),
/// whose steps the editor does not choose.
pub open spec fn installs_workflow(msg: Message) -> bool {
    msg matches Message::WorkflowLoaded(Ok(_))
}

/// A step never holds both an action and a shell command: every message
/// keeps that true, except one that installs a workflow loaded from a file.
pub proof fn law_steps_never_mix_uses_and_run(old: App, msg: Message, new: App, cmd: Command)
    requires
        update_spec(old, msg, new, cmd),
        steps_unmixed(old),
        !installs_workflow(msg),
    ensures
        steps_unmixed(new),
{
    match msg {
        Message::JobNameChanged(id, name) => lemma_workflow_edit_keeps_unmixed(old, new, id@, JobEdit::SetName(nonempty(name))),
        Message::JobRunsOnChanged(id, r) => lemma_workflow_edit_keeps_unmixed(old, new, id@, JobEdit::SetRunsOn(r)),
        Message::AddStep(id) => lemma_workflow_edit_keeps_unmixed(old, new, id@, JobEdit::AddStep),
        Message::RemoveStep(id, i) => lemma_workflow_edit_keeps_unmixed(old, new, id@, JobEdit::RemoveStep(i)),
        Message::StepNameChanged(id, i, n) => lemma_workflow_edit_keeps_unmixed(old, new, id@, JobEdit::SetStepName(i, nonempty(n))),
        Message::StepUsesChanged(id, i, u) => lemma_workflow_edit_keeps_unmixed(old, new, id@, JobEdit::SetStepUses(i, nonempty(u))),
        Message::StepRunChanged(id, i, r) => lemma_workflow_edit_keeps_unmixed(old, new, id@, JobEdit::SetStepRun(i, nonempty(r))),
        Message::ActionSelected(r) => {
            if let Some((id, i)) = selection(old) {
                lemma_workflow_edit_keeps_unmixed(old, new, id, JobEdit::SetStepUses(i, Some(r)));
            }
        },
        Message::AddJob => {
            if let Some(wf) = old.workflow {
                let nwf = new.workflow->0;
                let k = new.selected_job->0@;
                assert forall|j: Seq<char>| #[trigger] nwf.jobs@.contains_key(j) implies job_unmixed(nwf.jobs@[j]) by {
                    if j != k {
                        assert(wf.jobs@.contains_key(j));
                    }
                }
            }
        },
        Message::RemoveJob(id) => {
            if let Some(wf) = old.workflow {
                let nwf = new.workflow->0;
                assert forall|j: Seq<char>| #[trigger] nwf.jobs@.contains_key(j) implies job_unmixed(nwf.jobs@[j]) by {
                    assert(wf.jobs@.contains_key(j));
                }
            }
        },
        Message::NewWorkflow => {
            let nwf = new.workflow->0;
            assert forall|j: Seq<char>| #[trigger] nwf.jobs@.contains_key(j) implies job_unmixed(nwf.jobs@[j]) by {
                assert(nwf.jobs@.dom().contains(j));
            }
        },
        _ => {},
    }
}

/// Loaded marketplace actions replace the list on show: afterwards exactly
/// the loaded actions are listed, whatever was listed before, and nothing
/// else changes.
pub proof fn law_loaded_actions_replace_the_list(old: App, loaded: Vec<MarketplaceAction>, new: App, cmd: Command)
    requires
        update_spec(old, Message::MarketplaceLoaded(Ok(loaded)), new, cmd),
    ensures
        new.marketplace_actions@ == loaded@,
        new == (App { marketplace_actions: new.marketplace_actions, ..old }),
        cmd is Idle,
{
}

/// Of two loads in a row, the second one is what is listed.
pub proof fn law_last_load_wins(
    a0: App,
    first: Vec<MarketplaceAction>,
    a1: App,
    c1: Command,
    second: Vec<MarketplaceAction>,
    a2: App,
    c2: Command,
)
    requires
        update_spec(a0, Message::MarketplaceLoaded(Ok(first)), a1, c1),
        update_spec(a1, Message::MarketplaceLoaded(Ok(second)), a2, c2),
    ensures
        a2.marketplace_actions@ == second@,
{
}

/// Selecting a job selects it with no step: a step selected in another job
/// does not carry over, so a following action choice changes nothing.
pub proof fn law_select_job_clears_step(old: App, id: String, new: App, cmd: Command)
    requires
        update_spec(old, Message::SelectJob(id), new, cmd),
    ensures
        new.selected_job == Some(id),
        new.selected_step is None,
        selection(new) is None,
        new.workflow == old.workflow,
        cmd is Idle,
{
}

/// After selecting a job, choosing an action leaves the workflow as it was.
pub proof fn law_action_after_select_job_changes_nothing(
    a0: App,
    id: String,
    a1: App,
    c1: Command,
    r: String,
    a2: App,
    c2: Command,
)
    requires
        update_spec(a0, Message::SelectJob(id), a1, c1),
        update_spec(a1, Message::ActionSelected(r), a2, c2),
    ensures
        a2.workflow == a0.workflow,
        a2 == a1,
{
}

} // verus!
