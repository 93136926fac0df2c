use imir::render::{flag_of, profile_inputs_for};
use imir::{normalize_profile_inputs, normalize_repository_inputs, Error};

fn validation_message(error: Error) -> String {
    match error {
        Error::Validation { message } => message,
        other => panic!("expected validation error, got {other:?}"),
    }
}

#[test]
fn normalize_profile_inputs_with_defaults() {
    let result = normalize_profile_inputs("octocat", None, None, None, None, None, None).unwrap();

    assert_eq!(result.target_user, "octocat");
    assert_eq!(result.branch_name, "ci/metrics-refresh-profile");
    assert_eq!(result.target_path, "metrics/profile.svg");
    assert_eq!(result.temp_artifact, ".metrics-tmp/profile.svg");
    assert_eq!(result.time_zone, "Asia/Ho_Chi_Minh");
    assert_eq!(result.display_name, "profile");
    assert_eq!(result.include_private, "false");
}

#[test]
fn normalize_profile_inputs_with_custom_values() {
    let result = normalize_profile_inputs(
        "custom-user",
        Some("custom-branch"),
        Some("custom/path.svg"),
        Some("custom-tmp.svg"),
        Some("UTC"),
        Some("custom"),
        Some("true"),
    )
    .unwrap();

    assert_eq!(result.target_user, "custom-user");
    assert_eq!(result.branch_name, "custom-branch");
    assert_eq!(result.include_private, "true");
    assert_eq!(result.repositories_affiliations, "owner, collaborator, organization_member");
}

#[test]
fn normalize_profile_inputs_rejects_empty_target_user() {
    let result = normalize_profile_inputs("", None, None, None, None, None, None);
    assert!(result.is_err());
}

#[test]
fn normalize_profile_inputs_rejects_invalid_include_private() {
    let result = normalize_profile_inputs("octocat", None, None, None, None, None, Some("invalid"));
    assert!(result.is_err());
}

#[test]
fn normalize_repository_inputs_with_defaults() {
    let result =
        normalize_repository_inputs("my-repo", None, "owner/repo", None, None, None, None, None)
            .unwrap();

    assert_eq!(result.target_owner, "owner");
    assert_eq!(result.target_repo, "my-repo");
    assert_eq!(result.target_path, "metrics/my-repo.svg");
    assert_eq!(result.branch_name, "ci/metrics-refresh-my-repo");
    assert_eq!(result.contributors_branch, "main");
}

#[test]
fn normalize_repository_inputs_with_custom_values() {
    let result = normalize_repository_inputs(
        "test-repo",
        Some("custom-owner"),
        "ignored/repo",
        Some("custom/path.svg"),
        Some("custom-tmp.svg"),
        Some("custom-branch"),
        Some("develop"),
        Some("UTC"),
    )
    .unwrap();

    assert_eq!(result.target_owner, "custom-owner");
    assert_eq!(result.contributors_branch, "develop");
}

#[test]
fn normalize_repository_inputs_rejects_empty_target_repo() {
    let result = normalize_repository_inputs("", None, "owner/repo", None, None, None, None, None);
    assert!(result.is_err());
}

#[test]
fn normalize_repository_inputs_rejects_whitespace_in_contributors_branch() {
    let result = normalize_repository_inputs(
        "test-repo",
        None,
        "owner/repo",
        None,
        None,
        None,
        Some("branch with spaces"),
        None,
    );
    assert!(result.is_err());
}

#[test]
fn profile_flag_is_read_without_regard_to_case() {
    for (text, expected) in [
        ("TRUE", "true"),
        ("Yes", "true"),
        ("1", "true"),
        ("", "false"),
        ("FALSE", "false"),
        ("No", "false"),
        ("0", "false"),
    ] {
        let inputs =
            normalize_profile_inputs("octocat", None, None, None, None, None, Some(text)).unwrap();
        assert_eq!(inputs.include_private, expected, "{text:?}");
    }
    for text in [" true", "on", "2", "yes "] {
        let error = normalize_profile_inputs("octocat", None, None, None, None, None, Some(text))
            .unwrap_err();
        assert_eq!(validation_message(error), "include_private must be a boolean value");
    }
    assert_eq!(flag_of("true"), Some(true));
    assert_eq!(flag_of("TRUE"), None);
    assert_eq!(flag_of("no"), Some(false));
}

#[test]
fn profile_inputs_follow_the_flag() {
    let private = profile_inputs_for("u", None, Some(""), None, None, None, true);
    assert_eq!(private.target_path, "metrics/profile.svg");
    assert_eq!(private.repositories_affiliations, "owner, collaborator, organization_member");
    assert_eq!(
        private.plugin_repositories_affiliations,
        "owner, collaborator, organization_member"
    );
    assert_eq!(private.plugin_activity_visibility, "all");
    assert_eq!(private.plugin_code_visibility, "all");
    assert_eq!(private.plugin_achievements_secrets, "yes");
    let public = profile_inputs_for("u", Some("b"), None, Some("t"), Some("UTC"), Some("n"), false);
    assert_eq!(public.branch_name, "b");
    assert_eq!(public.temp_artifact, "t");
    assert_eq!(public.time_zone, "UTC");
    assert_eq!(public.display_name, "n");
    assert_eq!(public.repositories_affiliations, "owner, organization_member");
    assert_eq!(public.plugin_repositories_affiliations, "owner, organization_member");
    assert_eq!(public.plugin_activity_visibility, "public");
    assert_eq!(public.plugin_code_visibility, "public");
    assert_eq!(public.plugin_achievements_secrets, "no");
}

#[test]
fn profile_user_is_checked_before_the_flag() {
    let error =
        normalize_profile_inputs("", None, None, None, None, None, Some("maybe")).unwrap_err();
    assert_eq!(validation_message(error), "target_user must be provided");
}

#[test]
fn repository_owner_falls_back_to_the_enclosing_repository() {
    let inputs =
        normalize_repository_inputs("r", Some(""), "org/name/extra", None, None, None, None, None)
            .unwrap();
    assert_eq!(inputs.target_owner, "org");
    let inputs =
        normalize_repository_inputs("r", None, "no-slash", None, None, None, None, None).unwrap();
    assert_eq!(inputs.target_owner, "no-slash");
    let inputs = normalize_repository_inputs("r", None, "/x", None, None, None, None, None).unwrap();
    assert_eq!(inputs.target_owner, "");
}

#[test]
fn repository_defaults_are_built_from_the_repository() {
    let inputs =
        normalize_repository_inputs("r", None, "o/r", Some(""), Some(""), Some(""), Some(""), Some(""))
            .unwrap();
    assert_eq!(inputs.target_path, "metrics/r.svg");
    assert_eq!(inputs.temp_artifact, ".metrics-tmp/r.svg");
    assert_eq!(inputs.branch_name, "ci/metrics-refresh-r");
    assert_eq!(inputs.contributors_branch, "main");
    assert_eq!(inputs.time_zone, "Asia/Ho_Chi_Minh");
}

#[test]
fn repository_contributors_branch_is_trimmed_and_checked() {
    let inputs =
        normalize_repository_inputs("r", None, "o/r", None, None, None, Some(" dev "), None).unwrap();
    assert_eq!(inputs.contributors_branch, "dev");
    let error = normalize_repository_inputs("r", None, "o/r", None, None, None, Some("  "), None)
        .unwrap_err();
    assert_eq!(validation_message(error), "contributors_branch cannot be empty");
    let error = normalize_repository_inputs("r", None, "o/r", None, None, None, Some("a b"), None)
        .unwrap_err();
    assert_eq!(validation_message(error), "contributors_branch cannot contain whitespace");
    let error = normalize_repository_inputs("", None, "o/r", None, None, None, Some("a b"), None)
        .unwrap_err();
    assert_eq!(validation_message(error), "target_repo must be provided");
}
