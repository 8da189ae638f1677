//! The texts that the editor's views show.

use crate::models::workflow::{Job, Step, Workflow};
use crate::text::{decimal, push_decimal, utf8_len};
use vstd::prelude::*;
use vstd::string::StringSliceAdditionalSpecFns;
use vstd::utf8::{encode_utf8, is_char_boundary};

verus! {

/// A step's label is computable: a shell command shown in its place is cut at
/// its 30th byte, which must end a character.
pub open spec fn step_label_computable(step: Step) -> bool {
    match (step.name, step.uses, step.run) {
        (None, None, Some(r)) => utf8_len(r@) > 30 ==> is_char_boundary(encode_utf8(r@), 30),
        _ => true,
    }
}

/// The label of a step in the sidebar, as UTF-8 bytes: its name, else the
/// action it uses, else its shell command cut to 30 bytes, else `Step`.
pub open spec fn step_label_bytes(step: Step) -> Seq<u8> {
    match step.name {
        Some(n) => encode_utf8(n@),
        None => match step.uses {
            Some(u) => encode_utf8(u@),
            None => match step.run {
                Some(r) => if utf8_len(r@) > 30 {
                    encode_utf8(r@).subrange(0, 30)
                } else {
                    encode_utf8(r@)
                },
                None => encode_utf8("Step"@),
            },
        },
    }
}

/// The label of a step in the sidebar.
pub fn step_label(step: &Step) -> (label: &str)
    requires
        step_label_computable(*step),
    ensures
        label.spec_bytes() == step_label_bytes(*step),
{
    match &step.name {
        Some(n) => n.as_str(),
        None => match &step.uses {
            Some(u) => u.as_str(),
            None => match &step.run {
                Some(r) => {
                    let s = r.as_str();
                    if s.len() > 30 {
                        let (head, _) = s.split_at(30);
                        head
                    } else {
                        s
                    }
                },
                None => "Step",
            },
        },
    }
}

/// The label of a job: its name, else its id.
pub fn job_label<'a>(job: &'a Job, id: &'a str) -> (label: &'a str)
    ensures
        label@ == match job.name {
            Some(n) => n@,
            None => id@,
        },
{
    match &job.name {
        Some(n) => n.as_str(),
        None => id,
    }
}

/// How many steps a job has, as the sidebar says it.
pub fn step_count_text(job: &Job) -> (t: String)
    ensures
        t@ == decimal(job.steps@.len()) + " steps"@,
{
    let mut t = String::new();
    push_decimal(&mut t, job.steps.len() as u64);
    t.push_str(" steps");
    proof {
        assert(t@ =~= decimal(job.steps@.len()) + " steps"@);
    }
    t
}

/// The heading of a step in the step editor (numbered from 1).
pub fn step_heading(index: usize) -> (t: String)
    requires
        index < usize::MAX,
    ensures
        t@ == "Step "@ + decimal((index + 1) as nat),
{
    let mut t = String::new();
    t.push_str("Step ");
    push_decimal(&mut t, (index + 1) as u64);
    t
}

/// The rate limit in the status bar: `API: <n>/5000`, or nothing.
pub fn rate_limit_text(rate_limit: Option<u32>) -> (t: String)
    ensures
        t@ == match rate_limit {
            Some(r) => "API: "@ + decimal(r as nat) + "/5000"@,
            None => Seq::<char>::empty(),
        },
{
    let mut t = String::new();
    if let Some(r) = rate_limit {
        t.push_str("API: ");
        push_decimal(&mut t, r as u64);
        t.push_str("/5000");
        proof {
            assert(t@ =~= "API: "@ + decimal(r as nat) + "/5000"@);
        }
    }
    t
}

/// The connection status in the status bar.
pub fn connection_text(username: Option<&str>) -> (t: String)
    ensures
        t@ == match username {
            Some(u) => "Connected as "@ + u@,
            None => "Not connected"@,
        },
{
    let mut t = String::new();
    match username {
        Some(u) => {
            t.push_str("Connected as ");
            t.push_str(u);
        },
        None => {
            t.push_str("Not connected");
        },
    }
    t
}

/// The cache summary in the status bar.
pub fn cache_status_text(disk_entries: usize, size: &str) -> (t: String)
    ensures
        t@ == "Cache: "@ + decimal(disk_entries as nat) + " entries, "@ + size@,
{
    let mut t = String::new();
    t.push_str("Cache: ");
    push_decimal(&mut t, disk_entries as u64);
    t.push_str(" entries, ");
    t.push_str(size);
    proof {
        assert(t@ =~= "Cache: "@ + decimal(disk_entries as nat) + " entries, "@ + size@);
    }
    t
}

/// The workflow's title in the sidebar: its name, else `Untitled`.
pub fn workflow_title(workflow: &Workflow) -> (t: &str)
    ensures
        t@ == match workflow.name {
            Some(n) => n@,
            None => "Untitled"@,
        },
{
    match &workflow.name {
        Some(n) => n.as_str(),
        None => "Untitled",
    }
}

/// One job as the sidebar lists it.
#[derive(Debug, Clone)]
pub struct SidebarJob {
    /// The job's id, which selecting it reports.
    pub id: String,
    /// The job's label.
    pub label: String,
    /// How many steps it has, as text.
    pub step_count: String,
    /// Whether it is the selected job.
    pub selected: bool,
    /// The labels of its steps, listed for the selected job only.
    pub step_labels: Vec<String>,
}

/// The sidebar's entry for the job `id`.
pub open spec fn sidebar_job_shows(id: Seq<char>, job: Job, selected: bool, item: SidebarJob) -> bool {
    &&& item.id@ == id
    &&& item.label@ == match job.name {
        Some(n) => n@,
        None => id,
    }
    &&& item.step_count@ == decimal(job.steps@.len()) + " steps"@
    &&& item.selected == selected
    &&& if selected {
        &&& item.step_labels@.len() == job.steps@.len()
        &&& forall|k: int|
            0 <= k < job.steps@.len() ==> encode_utf8((#[trigger] item.step_labels@[k])@) == step_label_bytes(
                job.steps@[k],
            )
    } else {
        item.step_labels@.len() == 0
    }
}

/// Whether `id` is the selected job.
pub open spec fn is_selected_job(selected_job: Option<&str>, id: Seq<char>) -> bool {
    selected_job matches Some(s) && s@ == id
}

/// The labels of the selected job's steps can be computed.
pub open spec fn sidebar_computable(workflow: Workflow, selected_job: Option<&str>) -> bool {
    match selected_job {
        Some(s) => workflow.jobs@.contains_key(s@) ==> forall|k: int|
            0 <= k < workflow.jobs@[s@].steps@.len() ==> step_label_computable(
                #[trigger] workflow.jobs@[s@].steps@[k],
            ),
        None => true,
    }
}

/// The labels of a job's steps.
fn step_labels_of(job: &Job) -> (labels: Vec<String>)
    requires
        forall|k: int| 0 <= k < job.steps@.len() ==> step_label_computable(#[trigger] job.steps@[k]),
    ensures
        labels@.len() == job.steps@.len(),
        forall|k: int|
            0 <= k < job.steps@.len() ==> encode_utf8((#[trigger] labels@[k])@) == step_label_bytes(job.steps@[k]),
{
    let mut labels: Vec<String> = Vec::new();
    let n = job.steps.len();
    for k in 0..n
        invariant
            n == job.steps@.len(),
            forall|j: int| 0 <= j < job.steps@.len() ==> step_label_computable(#[trigger] job.steps@[j]),
            labels@.len() == k,
            forall|j: int| 0 <= j < k ==> encode_utf8((#[trigger] labels@[j])@) == step_label_bytes(job.steps@[j]),
    {
        let label = step_label(&job.steps[k]);
        labels.push(label.to_owned());
    }
    labels
}

/// The jobs of the sidebar, in the workflow's order.
pub fn sidebar_jobs(workflow: &Workflow, selected_job: Option<&str>) -> (items: Vec<SidebarJob>)
    requires
        sidebar_computable(*workflow, selected_job),
    ensures
        items@.len() == workflow.jobs.key_order().len(),
        forall|i: int|
            0 <= i < items@.len() ==> sidebar_job_shows(
                workflow.jobs.key_order()[i],
                workflow.jobs@[workflow.jobs.key_order()[i]],
                is_selected_job(selected_job, workflow.jobs.key_order()[i]),
                #[trigger] items@[i],
            ),
{
    let selected_id: Option<String> = match selected_job {
        Some(s) => Some(s.to_owned()),
        None => None,
    };
    let mut items: Vec<SidebarJob> = Vec::new();
    let n = workflow.jobs.len();
    for i in 0..n
        invariant
            n == workflow.jobs.key_order().len(),
            sidebar_computable(*workflow, selected_job),
            match selected_job {
                Some(s) => selected_id matches Some(t) && t@ == s@,
                None => selected_id is None,
            },
            items@.len() == i,
            forall|j: int|
                0 <= j < i ==> sidebar_job_shows(
                    workflow.jobs.key_order()[j],
                    workflow.jobs@[workflow.jobs.key_order()[j]],
                    is_selected_job(selected_job, workflow.jobs.key_order()[j]),
                    #[trigger] items@[j],
                ),
    {
        let (id, job) = workflow.jobs.entry_at(i);
        let selected = match &selected_id {
            Some(s) => *s == *id,
            None => false,
        };
        let step_labels = if selected {
            proof {
                assert(workflow.jobs@.contains_key(selected_job->0@));
            }
            step_labels_of(job)
        } else {
            Vec::new()
        };
        let item = SidebarJob {
            id: id.clone(),
            label: job_label(job, id.as_str()).to_owned(),
            step_count: step_count_text(job),
            selected,
            step_labels,
        };
        items.push(item);
    }
    items
}

} // verus!
