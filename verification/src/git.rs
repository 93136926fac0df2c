//! The decisions of the commit-and-push operation: how the output of the
//! version-control tool is read, and what to do next while a push is
//! retried. The commands themselves are run by the caller.

use vstd::prelude::*;
use vstd::string::StringExecFns;
use crate::error::Error;
use crate::text::{
    copy_chars, matches_at, occurs_at, text_eq, text_view, to_chars, to_text, trim, trim_bounds,
};

verus! {

/// Result of the commit-and-push operation.
#[derive(Debug, Clone)]
pub struct GitPushResult {
    /// Whether changes were pushed to the remote.
    pub pushed: bool,
    /// Default base branch for the creation of a pull request.
    pub default_base: String,
}

/// The name that a command printed: its trimmed output where the command
/// succeeded and printed anything but whitespace.
pub open spec fn printed_name(success: bool, output: Seq<char>) -> Option<Seq<char>> {
    if success && trim(output).len() > 0 {
        Some(trim(output))
    } else {
        None
    }
}

/// Reads the name that a command printed.
pub fn read_printed_name(success: bool, output: &str) -> (r: Option<String>)
    ensures
        text_view(r) == printed_name(success, output@),
{
    if !success {
        return None;
    }
    let chars = to_chars(output);
    let (start, end) = trim_bounds(&chars);
    if start == end {
        None
    } else {
        Some(to_text(&chars, start, end))
    }
}

/// The branch that is checked out: the name printed for `HEAD`, or `main`.
pub open spec fn default_ref(success: bool, output: Seq<char>) -> Seq<char> {
    match printed_name(success, output) {
        Some(name) => name,
        None => "main"@,
    }
}

/// Reads the branch that is checked out from the output of
/// `git symbolic-ref --quiet --short HEAD`.
pub fn read_default_ref(success: bool, output: &str) -> (r: String)
    ensures
        r@ == default_ref(success, output@),
{
    match read_printed_name(success, output) {
        Some(name) => name,
        None => String::from_str("main"),
    }
}

/// The base branch of pull requests: the name printed for the remote `HEAD`
/// without its `origin/` in front, where the command succeeded and that name
/// is not empty; else the branch that is checked out.
pub open spec fn default_base(success: bool, output: Seq<char>, fallback: Seq<char>) -> Seq<char> {
    let head = trim(output);
    if success && occurs_at(head, "origin/"@, 0) && head.len() > "origin/"@.len() {
        head.skip("origin/"@.len() as int)
    } else {
        fallback
    }
}

/// Reads the base branch of pull requests from the output of
/// `git symbolic-ref --quiet --short refs/remotes/origin/HEAD`.
pub fn read_default_base(success: bool, output: &str, fallback: &str) -> (r: String)
    ensures
        r@ == default_base(success, output@, fallback@),
{
    if success {
        let chars = to_chars(output);
        let (start, end) = trim_bounds(&chars);
        let head = copy_chars(&chars, start, end);
        let prefix = to_chars("origin/");
        if matches_at(&head, &prefix, 0) && head.len() > prefix.len() {
            return to_text(&head, prefix.len(), head.len());
        }
    }
    String::from_str(fallback)
}

/// The refspec that fetches a branch into its remote-tracking branch.
pub open spec fn fetch_refspec(branch: Seq<char>) -> Seq<char> {
    "+refs/heads/"@ + branch + ":refs/remotes/origin/"@ + branch
}

/// Builds the refspec that fetches a branch into its remote-tracking branch.
pub fn branch_refspec(branch: &str) -> (r: String)
    ensures
        r@ == fetch_refspec(branch@),
{
    String::from_str("+refs/heads/").concat(branch).concat(":refs/remotes/origin/").concat(branch)
}

/// Builds the name of the remote-tracking branch of a branch.
pub fn remote_branch(branch: &str) -> (r: String)
    ensures
        r@ == "origin/"@ + branch@,
{
    String::from_str("origin/").concat(branch)
}

/// The argument of a forced push: a lease on the commit that the remote
/// branch had before the operation, or a plain lease where it had none.
pub open spec fn force_lease(branch: Seq<char>, upstream_before: Option<Seq<char>>) -> Seq<char> {
    match upstream_before {
        Some(sha) => "--force-with-lease=refs/heads/"@ + branch + ":"@ + sha,
        None => "--force-with-lease"@,
    }
}

/// Builds the argument of a forced push.
pub fn force_lease_argument(branch: &str, upstream_before: &Option<String>) -> (r: String)
    ensures
        r@ == force_lease(branch@, text_view(*upstream_before)),
{
    match upstream_before {
        Some(sha) => String::from_str("--force-with-lease=refs/heads/").concat(branch).concat(
            ":",
        ).concat(sha.as_str()),
        None => String::from_str("--force-with-lease"),
    }
}

/// How the local branch is created: from its own remote-tracking branch
/// where the remote has the branch, else from the remote-tracking branch of
/// the default branch where that could be fetched, else from the local
/// default branch.
pub open spec fn checkout_start(
    branch: Seq<char>,
    fallback: Seq<char>,
    remote_exists: bool,
    default_fetched: bool,
) -> Seq<char> {
    if remote_exists {
        "origin/"@ + branch
    } else if default_fetched {
        "origin/"@ + fallback
    } else {
        fallback
    }
}

/// Names the commit at which the local branch starts.
pub fn checkout_start_point(
    branch: &str,
    fallback: &str,
    remote_exists: bool,
    default_fetched: bool,
) -> (r: String)
    ensures
        r@ == checkout_start(branch@, fallback@, remote_exists, default_fetched),
{
    if remote_exists {
        remote_branch(branch)
    } else if default_fetched {
        remote_branch(fallback)
    } else {
        String::from_str(fallback)
    }
}

/// The number of attempts that a push is given.
pub open spec fn push_attempts() -> int {
    3
}

/// Where a push stands.
#[derive(Debug, Clone, Copy, PartialEq, Eq, Structural)]
pub enum PushState {
    /// A plain push is under way.
    Pushing {
        /// The number of the attempt, from one.
        attempt: u8,
    },
    /// The plain push was refused, and the remote branch is being read.
    Inspecting {
        /// The number of the attempt, from one.
        attempt: u8,
    },
    /// A forced push is under way.
    Forcing {
        /// The number of the attempt, from one.
        attempt: u8,
    },
}

/// What happened to the last action of a push.
#[derive(Debug, Clone, PartialEq, Eq)]
pub enum PushEvent {
    /// A plain push ended, with or without success.
    Pushed(bool),
    /// The remote branch was fetched and read: the commit it is at, if any.
    Inspected(Option<String>),
    /// A forced push ended, with or without success.
    Forced(bool),
}

/// What to do next for a push.
#[derive(Debug, Clone, PartialEq, Eq)]
pub enum PushAction {
    /// Push the branch.
    Push(PushState),
    /// Fetch the remote branch and read the commit it is at.
    Inspect(PushState),
    /// Push the branch with a lease.
    Force(PushState),
    /// Stop: the push is done, or every attempt was given up because the
    /// remote branch had moved.
    Finish(bool),
    /// Stop with an error: the last forced push was refused.
    Fail,
}

impl PushState {
    /// The state in which a push starts.
    pub fn start() -> (r: PushState)
        ensures
            r == (PushState::Pushing { attempt: 1 }),
    {
        PushState::Pushing { attempt: 1 }
    }

    /// The number of the attempt.
    pub open spec fn attempt(self) -> int {
        match self {
            PushState::Pushing { attempt } => attempt as int,
            PushState::Inspecting { attempt } => attempt as int,
            PushState::Forcing { attempt } => attempt as int,
        }
    }

    /// The attempt is one of those that a push is given.
    pub open spec fn wf(self) -> bool {
        1 <= self.attempt() <= push_attempts()
    }
}

/// Whether the remote branch moved while the push was prepared: it is at
/// another commit than before, or it exists now and did not before.
pub open spec fn remote_moved(before: Option<Seq<char>>, after: Option<Seq<char>>) -> bool {
    match before {
        Some(sha) => after != Some(sha),
        None => after is Some,
    }
}

/// The action that starts the attempt after `attempt`, or the end of the
/// push where that was the last one.
pub open spec fn after_attempt(attempt: int) -> PushAction {
    if attempt >= push_attempts() {
        PushAction::Finish(false)
    } else {
        PushAction::Push(PushState::Pushing { attempt: (attempt + 1) as u8 })
    }
}

/// What follows an event in a state. A push that succeeds ends the
/// operation. After a refused push the remote branch is read: where it
/// moved, the attempt is given up; else the push is forced. A forced push
/// that is refused fails the operation at the last attempt and starts the
/// next attempt before that. An event that the state does not wait for
/// repeats the state's action.
pub open spec fn push_decision(
    state: PushState,
    upstream_before: Option<Seq<char>>,
    event: PushEvent,
) -> PushAction {
    match (state, event) {
        (PushState::Pushing { attempt }, PushEvent::Pushed(done)) => if done {
            PushAction::Finish(true)
        } else {
            PushAction::Inspect(PushState::Inspecting { attempt })
        },
        (PushState::Inspecting { attempt }, PushEvent::Inspected(after)) => if remote_moved(
            upstream_before,
            text_view(after),
        ) {
            after_attempt(attempt as int)
        } else {
            PushAction::Force(PushState::Forcing { attempt })
        },
        (PushState::Forcing { attempt }, PushEvent::Forced(done)) => if done {
            PushAction::Finish(true)
        } else if attempt as int >= push_attempts() {
            PushAction::Fail
        } else {
            after_attempt(attempt as int)
        },
        (PushState::Pushing { .. }, _) => PushAction::Push(state),
        (PushState::Inspecting { .. }, _) => PushAction::Inspect(state),
        (PushState::Forcing { .. }, _) => PushAction::Force(state),
    }
}

/// Starts the attempt after `attempt`, or ends the push.
fn next_attempt(attempt: u8) -> (r: PushAction)
    requires
        1 <= attempt <= push_attempts(),
    ensures
        r == after_attempt(attempt as int),
{
    if attempt >= 3 {
        PushAction::Finish(false)
    } else {
        PushAction::Push(PushState::Pushing { attempt: attempt + 1 })
    }
}

/// Whether the two optional commits are the same.
fn same_commit(first: &Option<String>, second: &Option<String>) -> (r: bool)
    ensures
        r == (text_view(*first) == text_view(*second)),
{
    match (first, second) {
        (Some(a), Some(b)) => text_eq(a.as_str(), b.as_str()),
        (None, None) => true,
        _ => false,
    }
}

/// Decides what follows an event while a push is retried.
pub fn next_push_action(state: PushState, upstream_before: &Option<String>, event: &PushEvent) -> (r:
    PushAction)
    requires
        state.wf(),
    ensures
        r == push_decision(state, text_view(*upstream_before), *event),
        match r {
            PushAction::Push(next) => next.wf() && next.attempt() >= state.attempt(),
            PushAction::Inspect(next) => next.wf() && next.attempt() == state.attempt(),
            PushAction::Force(next) => next.wf() && next.attempt() == state.attempt(),
            PushAction::Finish(_) => true,
            PushAction::Fail => state.attempt() == push_attempts(),
        },
{
    match (state, event) {
        (PushState::Pushing { attempt }, PushEvent::Pushed(done)) => if *done {
            PushAction::Finish(true)
        } else {
            PushAction::Inspect(PushState::Inspecting { attempt })
        },
        (PushState::Inspecting { attempt }, PushEvent::Inspected(after)) => {
            let moved = match upstream_before {
                Some(_) => !same_commit(after, upstream_before),
                None => after.is_some(),
            };
            if moved {
                next_attempt(attempt)
            } else {
                PushAction::Force(PushState::Forcing { attempt })
            }
        },
        (PushState::Forcing { attempt }, PushEvent::Forced(done)) => if *done {
            PushAction::Finish(true)
        } else if attempt >= 3 {
            PushAction::Fail
        } else {
            next_attempt(attempt)
        },
        (PushState::Pushing { .. }, _) => PushAction::Push(state),
        (PushState::Inspecting { .. }, _) => PushAction::Inspect(state),
        (PushState::Forcing { .. }, _) => PushAction::Force(state),
    }
}

/// The error of a push that was refused at every attempt.
pub fn push_failure() -> (r: Error)
    ensures
        r.is_service("unable to push after 3 attempts"@),
{
    Error::service("unable to push after 3 attempts")
}

/// The result of the operation.
pub fn push_result(pushed: bool, default_base: String) -> (r: GitPushResult)
    ensures
        r.pushed == pushed,
        r.default_base == default_base,
{
    GitPushResult { pushed, default_base }
}

} // verus!
