//! Repository and token information built from GitHub API responses.

use crate::models::marketplace::{RepositoryInfo, TokenInfo};
use crate::time::{utc_now, Timestamp, MAX_UTC_SECS, MIN_UTC_SECS};
use vstd::prelude::*;

verus! {

impl RepositoryInfo {
    /// Repository info from what the API reports: a missing full name is
    /// empty, a missing privacy flag is public, a missing default branch is
    /// `main`, missing topics are none.
    pub fn from_api(
        full_name: Option<String>,
        owner: String,
        name: String,
        private: Option<bool>,
        default_branch: Option<String>,
        description: Option<String>,
        topics: Option<Vec<String>>,
    ) -> (r: RepositoryInfo)
        ensures
            r.full_name@ == match full_name {
                Some(f) => f@,
                None => Seq::<char>::empty(),
            },
            r.owner == owner,
            r.name == name,
            r.private == match private {
                Some(p) => p,
                None => false,
            },
            r.default_branch@ == match default_branch {
                Some(b) => b@,
                None => "main"@,
            },
            r.description == description,
            r.topics@ == match topics {
                Some(t) => t@,
                None => Seq::<String>::empty(),
            },
    {
        RepositoryInfo {
            full_name: match full_name {
                Some(f) => f,
                None => String::new(),
            },
            owner,
            name,
            private: match private {
                Some(p) => p,
                None => false,
            },
            default_branch: match default_branch {
                Some(b) => b,
                None => "main".to_owned(),
            },
            description,
            topics: match topics {
                Some(t) => t,
                None => Vec::new(),
            },
        }
    }
}

/// The low 32 bits of `n` (what `n as u32` keeps).
pub open spec fn low_u32(n: int) -> int {
    n % 0x1_0000_0000
}

/// `n as u32`.
fn truncate_to_u32(n: usize) -> (r: u32)
    ensures
        r == low_u32(n as int),
{
    ((n as u64) % 0x1_0000_0000u64) as u32
}

/// The `i64` with the same bits as the `u64` `n` (what `n as i64` gives).
pub open spec fn wrap_i64(n: int) -> int {
    if n < 0x8000_0000_0000_0000 {
        n
    } else {
        n - 0x1_0000_0000_0000_0000
    }
}

/// `n as i64`.
fn reinterpret_i64(n: u64) -> (r: i64)
    ensures
        r == wrap_i64(n as int),
{
    if n < 0x8000_0000_0000_0000u64 {
        n as i64
    } else {
        let k: u64 = n - 0x8000_0000_0000_0000u64;
        (k as i64) - 0x7fff_ffff_ffff_ffffi64 - 1
    }
}

impl TokenInfo {
    /// Token info for `user` from the rate-limit report: the remaining count
    /// cut to 32 bits, and the reset instant from its Unix seconds when a
    /// `DateTime<Utc>` can hold it, else read from the clock.
    pub fn from_rate_limit(user: String, remaining: usize, reset: u64) -> (t: TokenInfo)
        ensures
            t.scopes@.len() == 0,
            t.expires_at is None,
            t.user == user,
            t.rate_limit_remaining == low_u32(remaining as int),
            MIN_UTC_SECS <= wrap_i64(reset as int) <= MAX_UTC_SECS ==> t.rate_limit_reset.secs == wrap_i64(
                reset as int,
            ) && t.rate_limit_reset.nanos == 0,
            t.rate_limit_reset.wf(),
    {
        let secs = reinterpret_i64(reset);
        let rate_limit_reset = if MIN_UTC_SECS <= secs && secs <= MAX_UTC_SECS {
            Timestamp::new(secs, 0)
        } else {
            utc_now()
        };
        TokenInfo {
            scopes: Vec::new(),
            expires_at: None,
            user,
            rate_limit_remaining: truncate_to_u32(remaining),
            rate_limit_reset,
        }
    }
}

/// The git reference whose action metadata is looked up: the one given, else `HEAD`.
pub fn metadata_reference(ref_: Option<&str>) -> (r: &str)
    ensures
        r@ == match ref_ {
            Some(g) => g@,
            None => "HEAD"@,
        },
{
    match ref_ {
        Some(g) => g,
        None => "HEAD",
    }
}

/// Where a lookup of an action's metadata file stands.
#[derive(Debug, Clone, Copy, PartialEq, Eq, Structural)]
pub enum MetadataState {
    Start,
    FetchingYml,
    FetchingYaml,
    Finished,
}

/// What the caller reports after performing the last action.
pub enum MetadataEvent {
    /// The lookup starts.
    Begin,
    /// The contents request answered with these files, each as its decoded
    /// text (`None` where it could not be decoded), or failed.
    Fetched(Result<Vec<Option<String>>, String>),
}

/// What the caller has to do next.
pub enum MetadataAction {
    /// Request the contents of `path` at `reference` and report `Fetched`.
    Fetch { path: String, reference: String },
    /// The lookup is over: parse this YAML text as the action's metadata.
    Parse(String),
    /// The lookup is over: nothing was found, for this reason.
    NotFound(String),
}

/// The lookup asks for `path` at `reference` and waits in `state`.
pub open spec fn fetches(next: MetadataState, action: MetadataAction, state: MetadataState, path: Seq<char>, reference: Seq<char>) -> bool {
    next == state && (action matches MetadataAction::Fetch { path: p, reference: r } && p@ == path && r@ == reference)
}

/// The lookup ends, finding nothing for the reason `why`.
pub open spec fn not_found(next: MetadataState, action: MetadataAction, why: Seq<char>) -> bool {
    next == MetadataState::Finished && (action matches MetadataAction::NotFound(m) && m@ == why)
}

/// What a successful contents reply leads to: the first file's text is
/// parsed; no file, or one that could not be decoded, is not found.
pub open spec fn after_reply(files: Seq<Option<String>>, next: MetadataState, action: MetadataAction) -> bool {
    if files.len() == 0 {
        not_found(next, action, "action.yml"@)
    } else {
        match files[0] {
            Some(text) => next == MetadataState::Finished && action == MetadataAction::Parse(text),
            None => not_found(next, action, "Could not decode action.yml"@),
        }
    }
}

/// The lookup's decisions: `action.yml` first, then `action.yaml` when the
/// first request fails.
pub open spec fn metadata_transition(
    reference: Seq<char>,
    state: MetadataState,
    event: MetadataEvent,
    next: MetadataState,
    action: MetadataAction,
) -> bool {
    match (state, event) {
        (MetadataState::Start, MetadataEvent::Begin) => fetches(next, action, MetadataState::FetchingYml, "action.yml"@, reference),
        (MetadataState::FetchingYml, MetadataEvent::Fetched(Err(_))) => fetches(
            next,
            action,
            MetadataState::FetchingYaml,
            "action.yaml"@,
            reference,
        ),
        (MetadataState::FetchingYaml, MetadataEvent::Fetched(Err(_))) => not_found(next, action, "action.yml or action.yaml"@),
        (_, MetadataEvent::Fetched(Ok(files))) => after_reply(files@, next, action),
        _ => false,
    }
}

/// Whether `event` answers the action that left the lookup in `state`.
pub open spec fn metadata_event_fits(state: MetadataState, event: MetadataEvent) -> bool {
    match state {
        MetadataState::Start => event is Begin,
        MetadataState::FetchingYml => event is Fetched,
        MetadataState::FetchingYaml => event is Fetched,
        MetadataState::Finished => false,
    }
}

/// One step of looking up an action's metadata file at `reference`.
pub fn metadata_step(reference: &str, state: MetadataState, event: MetadataEvent) -> (r: (MetadataState, MetadataAction))
    requires
        metadata_event_fits(state, event),
    ensures
        metadata_transition(reference@, state, event, r.0, r.1),
{
    match event {
        MetadataEvent::Begin => (
            MetadataState::FetchingYml,
            MetadataAction::Fetch { path: "action.yml".to_owned(), reference: reference.to_owned() },
        ),
        MetadataEvent::Fetched(Err(_)) => {
            if state == MetadataState::FetchingYml {
                (
                    MetadataState::FetchingYaml,
                    MetadataAction::Fetch { path: "action.yaml".to_owned(), reference: reference.to_owned() },
                )
            } else {
                (MetadataState::Finished, MetadataAction::NotFound("action.yml or action.yaml".to_owned()))
            }
        },
        MetadataEvent::Fetched(Ok(files)) => {
            let mut files = files;
            if files.len() == 0 {
                (MetadataState::Finished, MetadataAction::NotFound("action.yml".to_owned()))
            } else {
                match files.swap_remove(0) {
                    Some(text) => (MetadataState::Finished, MetadataAction::Parse(text)),
                    None => (MetadataState::Finished, MetadataAction::NotFound("Could not decode action.yml".to_owned())),
                }
            }
        },
    }
}

} // verus!
