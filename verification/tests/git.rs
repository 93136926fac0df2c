use imir::git::{
    branch_refspec, checkout_start_point, force_lease_argument, next_push_action, push_failure,
    push_result, read_default_base, read_default_ref, read_printed_name, remote_branch, PushAction,
    PushEvent, PushState,
};
use imir::{Error, GitPushResult};

#[test]
fn git_push_result_clone() {
    let result = GitPushResult { pushed: false, default_base: "develop".to_string() };

    let cloned = result.clone();
    assert_eq!(result.pushed, cloned.pushed);
    assert_eq!(result.default_base, cloned.default_base);
}

#[test]
fn command_output_is_trimmed_and_may_be_missing() {
    assert_eq!(read_printed_name(true, " abc123\n").as_deref(), Some("abc123"));
    assert_eq!(read_printed_name(true, " \n"), None);
    assert_eq!(read_printed_name(false, "abc123"), None);
    assert_eq!(read_default_ref(true, "feature\n"), "feature");
    assert_eq!(read_default_ref(true, ""), "main");
    assert_eq!(read_default_ref(false, "feature"), "main");
}

#[test]
fn default_base_drops_the_remote_name() {
    assert_eq!(read_default_base(true, "origin/trunk\n", "dev"), "trunk");
    assert_eq!(read_default_base(true, "origin/", "dev"), "dev");
    assert_eq!(read_default_base(true, "upstream/trunk", "dev"), "dev");
    assert_eq!(read_default_base(true, "origin/a/b", "dev"), "a/b");
    assert_eq!(read_default_base(false, "origin/trunk", "dev"), "dev");
    assert_eq!(read_default_base(true, "", "dev"), "dev");
}

#[test]
fn arguments_name_the_branch() {
    assert_eq!(branch_refspec("ci/x"), "+refs/heads/ci/x:refs/remotes/origin/ci/x");
    assert_eq!(remote_branch("ci/x"), "origin/ci/x");
    assert_eq!(
        force_lease_argument("ci/x", &Some("abc".to_string())),
        "--force-with-lease=refs/heads/ci/x:abc"
    );
    assert_eq!(force_lease_argument("ci/x", &None), "--force-with-lease");
    assert_eq!(checkout_start_point("b", "main", true, false), "origin/b");
    assert_eq!(checkout_start_point("b", "main", false, true), "origin/main");
    assert_eq!(checkout_start_point("b", "main", false, false), "main");
}

fn run(before: Option<&str>, events: &[PushEvent]) -> PushAction {
    let before = before.map(str::to_string);
    let mut state = PushState::start();
    let mut action = PushAction::Push(state);
    for event in events {
        action = next_push_action(state, &before, event);
        match &action {
            PushAction::Push(next) | PushAction::Inspect(next) | PushAction::Force(next) => {
                state = *next;
            }
            PushAction::Finish(_) | PushAction::Fail => break,
        }
    }
    action
}

fn same(sha: &str) -> PushEvent {
    PushEvent::Inspected(Some(sha.to_string()))
}

#[test]
fn a_push_that_succeeds_ends_the_operation() {
    assert_eq!(run(None, &[PushEvent::Pushed(true)]), PushAction::Finish(true));
    assert_eq!(
        run(Some("a"), &[PushEvent::Pushed(false), same("a"), PushEvent::Forced(true)]),
        PushAction::Finish(true)
    );
    assert_eq!(
        run(None, &[PushEvent::Pushed(false), PushEvent::Inspected(None), PushEvent::Forced(true)]),
        PushAction::Finish(true)
    );
}

#[test]
fn a_moved_remote_gives_the_attempt_up() {
    assert_eq!(
        run(Some("a"), &[PushEvent::Pushed(false), same("b")]),
        PushAction::Push(PushState::Pushing { attempt: 2 })
    );
    assert_eq!(
        run(Some("a"), &[PushEvent::Pushed(false), PushEvent::Inspected(None)]),
        PushAction::Push(PushState::Pushing { attempt: 2 })
    );
    assert_eq!(
        run(None, &[PushEvent::Pushed(false), same("b")]),
        PushAction::Push(PushState::Pushing { attempt: 2 })
    );
    let thrice = [
        PushEvent::Pushed(false),
        same("b"),
        PushEvent::Pushed(false),
        same("b"),
        PushEvent::Pushed(false),
        same("b"),
    ];
    assert_eq!(run(Some("a"), &thrice), PushAction::Finish(false));
}

#[test]
fn a_refused_forced_push_fails_at_the_third_attempt() {
    let refused = [PushEvent::Pushed(false), same("a"), PushEvent::Forced(false)];
    assert_eq!(run(Some("a"), &refused), PushAction::Push(PushState::Pushing { attempt: 2 }));
    let mut events = Vec::new();
    for _ in 0..3 {
        events.extend(refused.iter().cloned());
    }
    assert_eq!(run(Some("a"), &events[..6]), PushAction::Push(PushState::Pushing { attempt: 3 }));
    assert_eq!(run(Some("a"), &events), PushAction::Fail);
    match push_failure() {
        Error::Service { message } => assert_eq!(message, "unable to push after 3 attempts"),
        other => panic!("expected a service error, got {other:?}"),
    }
}

#[test]
fn an_unexpected_event_repeats_the_action() {
    let state = PushState::Inspecting { attempt: 2 };
    assert_eq!(next_push_action(state, &None, &PushEvent::Pushed(true)), PushAction::Inspect(state));
    let state = PushState::Forcing { attempt: 1 };
    assert_eq!(next_push_action(state, &None, &PushEvent::Inspected(None)), PushAction::Force(state));
    let state = PushState::Pushing { attempt: 3 };
    assert_eq!(next_push_action(state, &None, &PushEvent::Forced(true)), PushAction::Push(state));
}

#[test]
fn push_result_holds_what_it_is_given() {
    let result = push_result(true, "main".to_string());
    assert!(result.pushed);
    assert_eq!(result.default_base, "main");
}
