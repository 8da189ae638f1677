//! The GitHub Actions workflow model: a workflow, its jobs and their steps.
//!
//! Maps keyed by name are `StrMap`s; matrix definitions and action inputs are
//! arbitrary YAML and are carried as `serde_yaml::Value`.

use crate::strmap::StrMap;
use vstd::prelude::*;

verus! {

/// An arbitrary YAML value, carried through the model unchanged.
#[verifier::external_type_specification]
#[verifier::external_body]
pub struct ExYamlValue(serde_yaml::Value);

/// A complete GitHub Actions workflow.
#[derive(Debug, Clone)]
pub struct Workflow {
    /// Workflow name displayed in the GitHub UI.
    pub name: Option<String>,
    /// Events that trigger the workflow.
    pub on: WorkflowTrigger,
    /// Environment variables available to all jobs.
    pub env: StrMap<String>,
    /// Default settings for all jobs.
    pub defaults: Option<WorkflowDefaults>,
    /// Concurrency settings.
    pub concurrency: Option<Concurrency>,
    /// Permissions for the GITHUB_TOKEN.
    pub permissions: Option<Permissions>,
    /// Jobs to run, by job id.
    pub jobs: StrMap<Job>,
}

/// Workflow trigger configuration.
#[derive(Debug, Clone)]
pub enum WorkflowTrigger {
    /// No trigger given.
    Unset,
    /// A single event name.
    Single(String),
    /// A list of event names.
    List(Vec<String>),
    /// Detailed configuration, by event name.
    Detailed(StrMap<Option<TriggerConfig>>),
}

/// Configuration for one trigger event.
#[derive(Debug, Clone)]
pub struct TriggerConfig {
    pub branches: Vec<String>,
    pub tags: Vec<String>,
    pub paths: Vec<String>,
    pub types: Vec<String>,
    /// Cron schedule for the schedule trigger.
    pub cron: Option<String>,
}

/// Default settings for jobs.
#[derive(Debug, Clone)]
pub struct WorkflowDefaults {
    pub run: Option<RunDefaults>,
}

/// Defaults for `run` steps.
#[derive(Debug, Clone)]
pub struct RunDefaults {
    pub shell: Option<String>,
    pub working_directory: Option<String>,
}

/// Concurrency control settings.
#[derive(Debug, Clone)]
pub enum Concurrency {
    /// A group name.
    Group(String),
    /// A group and whether to cancel runs in progress.
    Detailed { group: String, cancel_in_progress: bool },
}

/// Permissions for the GITHUB_TOKEN.
#[derive(Debug, Clone)]
pub enum Permissions {
    /// `read-all` or `write-all`.
    Level(String),
    /// Per-scope permissions.
    Detailed(StrMap<String>),
}

/// A job in the workflow.
#[derive(Debug, Clone)]
pub struct Job {
    /// Human-readable job name.
    pub name: Option<String>,
    /// Runner to execute the job on.
    pub runs_on: RunsOn,
    /// Jobs that must complete before this one.
    pub needs: Option<JobNeeds>,
    /// Condition for running the job.
    pub condition: Option<String>,
    /// Environment variables for this job.
    pub env: StrMap<String>,
    /// Job-level permissions.
    pub permissions: Option<Permissions>,
    /// Deployment environment.
    pub environment: Option<JobEnvironment>,
    /// Job outputs.
    pub outputs: StrMap<String>,
    /// Strategy for matrix builds.
    pub strategy: Option<Strategy>,
    /// Container to run the job in.
    pub container: Option<Container>,
    /// Service containers.
    pub services: StrMap<Container>,
    /// Steps to execute.
    pub steps: Vec<Step>,
    /// Timeout in minutes.
    pub timeout_minutes: Option<u32>,
    /// Continue on error.
    pub continue_on_error: bool,
}

/// Runner specification.
#[derive(Debug, Clone)]
pub enum RunsOn {
    /// No runner given.
    Unset,
    /// A single runner label.
    Single(String),
    /// Several runner labels.
    Labels(Vec<String>),
    /// A runner group, optionally with labels.
    Group { group: String, labels: Vec<String> },
}

/// Job dependencies.
#[derive(Debug, Clone)]
pub enum JobNeeds {
    Single(String),
    Multiple(Vec<String>),
}

/// Deployment environment configuration.
#[derive(Debug, Clone)]
pub enum JobEnvironment {
    Name(String),
    Detailed { name: String, url: Option<String> },
}

/// Matrix strategy configuration.
#[derive(Debug, Clone)]
pub struct Strategy {
    pub matrix: Option<serde_yaml::Value>,
    pub fail_fast: bool,
    pub max_parallel: Option<u32>,
}

/// Container configuration.
#[derive(Debug, Clone)]
pub enum Container {
    Image(String),
    Detailed {
        image: String,
        credentials: Option<ContainerCredentials>,
        env: StrMap<String>,
        ports: Vec<String>,
        volumes: Vec<String>,
        options: Option<String>,
    },
}

/// Credentials for a container registry.
#[derive(Debug, Clone)]
pub struct ContainerCredentials {
    pub username: String,
    pub password: String,
}

/// A step in a job.
#[derive(Debug, Clone)]
pub struct Step {
    /// Step identifier.
    pub id: Option<String>,
    /// Human-readable step name.
    pub name: Option<String>,
    /// Condition for running the step.
    pub condition: Option<String>,
    /// Action to use (exclusive with `run`).
    pub uses: Option<String>,
    /// Shell command to run (exclusive with `uses`).
    pub run: Option<String>,
    /// Shell to use for run commands.
    pub shell: Option<String>,
    /// Working directory.
    pub working_directory: Option<String>,
    /// Inputs for the action (`with`).
    pub inputs: StrMap<serde_yaml::Value>,
    /// Environment variables.
    pub env: StrMap<String>,
    /// Continue on error.
    pub continue_on_error: bool,
    /// Timeout in minutes.
    pub timeout_minutes: Option<u32>,
}

impl Step {
    /// A step with nothing set.
    pub open spec fn is_blank(self) -> bool {
        &&& self.id is None
        &&& self.name is None
        &&& self.condition is None
        &&& self.uses is None
        &&& self.run is None
        &&& self.shell is None
        &&& self.working_directory is None
        &&& self.inputs@ == Map::<Seq<char>, serde_yaml::Value>::empty()
        &&& self.env@ == Map::<Seq<char>, String>::empty()
        &&& !self.continue_on_error
        &&& self.timeout_minutes is None
    }
}

impl Default for Step {
    fn default() -> (s: Step)
        ensures
            s.is_blank(),
    {
        Step {
            id: None,
            name: None,
            condition: None,
            uses: None,
            run: None,
            shell: None,
            working_directory: None,
            inputs: StrMap::new(),
            env: StrMap::new(),
            continue_on_error: false,
            timeout_minutes: None,
        }
    }
}

impl Job {
    /// A job with nothing set.
    pub open spec fn is_blank(self) -> bool {
        &&& self.name is None
        &&& self.runs_on is Unset
        &&& self.needs is None
        &&& self.condition is None
        &&& self.env@ == Map::<Seq<char>, String>::empty()
        &&& self.permissions is None
        &&& self.environment is None
        &&& self.outputs@ == Map::<Seq<char>, String>::empty()
        &&& self.strategy is None
        &&& self.container is None
        &&& self.services@ == Map::<Seq<char>, Container>::empty()
        &&& self.steps@ == Seq::<Step>::empty()
        &&& self.timeout_minutes is None
        &&& !self.continue_on_error
    }

    /// `self` and `other` agree on everything but their steps.
    pub open spec fn same_but_steps(self, other: Job) -> bool {
        other == Job { steps: other.steps, ..self }
    }
}

impl Default for Job {
    fn default() -> (j: Job)
        ensures
            j.is_blank(),
    {
        Job {
            name: None,
            runs_on: RunsOn::Unset,
            needs: None,
            condition: None,
            env: StrMap::new(),
            permissions: None,
            environment: None,
            outputs: StrMap::new(),
            strategy: None,
            container: None,
            services: StrMap::new(),
            steps: Vec::new(),
            timeout_minutes: None,
            continue_on_error: false,
        }
    }
}

impl Workflow {
    /// A workflow with nothing set.
    pub open spec fn is_blank(self) -> bool {
        &&& self.name is None
        &&& self.on is Unset
        &&& self.env@ == Map::<Seq<char>, String>::empty()
        &&& self.defaults is None
        &&& self.concurrency is None
        &&& self.permissions is None
        &&& self.jobs@ == Map::<Seq<char>, Job>::empty()
    }

    /// `self` and `other` agree on everything but their jobs.
    pub open spec fn same_but_jobs(self, other: Workflow) -> bool {
        other == Workflow { jobs: other.jobs, ..self }
    }
}

impl Default for Workflow {
    fn default() -> (w: Workflow)
        ensures
            w.is_blank(),
    {
        Workflow {
            name: None,
            on: WorkflowTrigger::Unset,
            env: StrMap::new(),
            defaults: None,
            concurrency: None,
            permissions: None,
            jobs: StrMap::new(),
        }
    }
}

} // verus!
