use imir::open_source::{
    decode_input, default_repositories, normalize_contributors_branch, normalize_repository,
    repositories_from_document, JsonValue, RepositoryInput,
};
use imir::{
    resolve_open_source_repositories, resolve_open_source_targets, Error, OpenSourceRepository,
};

const DEFAULT_CONTRIBUTORS_BRANCH: &str = "main";

#[test]
fn open_source_falls_back_to_defaults_when_input_missing() {
    let repositories = resolve_open_source_repositories(None).expect("expected defaults");
    assert_eq!(repositories, vec!["masterror".to_owned(), "telegram-webapp-sdk".to_owned()]);
}

#[test]
fn open_source_trims_and_normalizes_entries() {
    let repositories = resolve_open_source_repositories(Some("[\" repo \", \"another\"]"))
        .expect("expected normalization");
    assert_eq!(repositories, vec!["repo".to_owned(), "another".to_owned()]);
}

#[test]
fn open_source_rejects_empty_array() {
    let error = resolve_open_source_repositories(Some("[]")).unwrap_err();
    match error {
        Error::Validation { message } => {
            assert_eq!(
                message,
                "repositories input must be a non-empty JSON array of repository names"
            );
        }
        other => panic!("expected validation error, got {other:?}"),
    }
}

#[test]
fn open_source_rejects_invalid_json() {
    let error = resolve_open_source_repositories(Some("not-json")).unwrap_err();
    match error {
        Error::Validation { message } => {
            assert!(message.starts_with("invalid repositories JSON:"));
        }
        other => panic!("expected validation error, got {other:?}"),
    }
}

#[test]
fn open_source_rejects_empty_entries() {
    let error = resolve_open_source_repositories(Some("[\"\", \"repo\"]")).unwrap_err();
    match error {
        Error::Validation { message } => {
            assert_eq!(message, "repository names cannot be empty strings");
        }
        other => panic!("expected validation error, got {other:?}"),
    }
}

#[test]
fn open_source_treats_whitespace_input_as_missing() {
    let repositories = resolve_open_source_repositories(Some("   "))
        .expect("expected defaults when input whitespace");
    assert_eq!(repositories, vec!["masterror".to_owned(), "telegram-webapp-sdk".to_owned()]);
}

#[test]
fn resolves_descriptors_with_default_branch() {
    let targets =
        resolve_open_source_targets(Some("[\"repo\"]")).expect("expected descriptor resolution");

    assert_eq!(
        targets,
        vec![OpenSourceRepository {
            repository: "repo".to_owned(),
            contributors_branch: DEFAULT_CONTRIBUTORS_BRANCH.to_owned(),
        }]
    );
}

#[test]
fn resolves_branch_override_with_trimming() {
    let targets = resolve_open_source_targets(Some(
        "[{\"repository\":\"repo\",\"contributors_branch\":\" feature/main \"}]",
    ))
    .expect("expected branch override");

    assert_eq!(
        targets,
        vec![OpenSourceRepository {
            repository: "repo".to_owned(),
            contributors_branch: "feature/main".to_owned(),
        }]
    );
}

#[test]
fn rejects_branch_with_internal_whitespace() {
    let error = resolve_open_source_targets(Some(
        "[{\"repository\":\"repo\",\"contributors_branch\":\"feature main\"}]",
    ))
    .expect_err("expected branch validation error");

    match error {
        Error::Validation { message } => {
            assert_eq!(message, "contributors_branch cannot contain whitespace");
        }
        other => panic!("expected validation error, got {other:?}"),
    }
}

#[test]
fn resolves_mixed_input_string_and_descriptor() {
    let targets = resolve_open_source_targets(Some(
        "[\"simple\", {\"repository\":\"advanced\",\"contributors_branch\":\"develop\"}]",
    ))
    .expect("expected mixed resolution");

    assert_eq!(targets.len(), 2);
    assert_eq!(targets[0].repository, "simple");
    assert_eq!(targets[0].contributors_branch, DEFAULT_CONTRIBUTORS_BRANCH);
    assert_eq!(targets[1].repository, "advanced");
    assert_eq!(targets[1].contributors_branch, "develop");
}

#[test]
fn rejects_empty_contributors_branch() {
    let error = resolve_open_source_targets(Some(
        "[{\"repository\":\"repo\",\"contributors_branch\":\"\"}]",
    ))
    .expect_err("expected empty branch validation error");

    match error {
        Error::Validation { message } => {
            assert_eq!(message, "contributors_branch cannot be empty");
        }
        other => panic!("expected validation error, got {other:?}"),
    }
}

#[test]
fn handles_descriptor_without_contributors_branch() {
    let targets = resolve_open_source_targets(Some("[{\"repository\":\"repo\"}]"))
        .expect("expected descriptor without branch");

    assert_eq!(targets.len(), 1);
    assert_eq!(targets[0].repository, "repo");
    assert_eq!(targets[0].contributors_branch, DEFAULT_CONTRIBUTORS_BRANCH);
}

#[test]
fn default_repositories_returns_expected_list() {
    let defaults = default_repositories();
    assert_eq!(defaults.len(), 2);
    assert_eq!(defaults[0].repository, "masterror");
    assert_eq!(defaults[0].contributors_branch, DEFAULT_CONTRIBUTORS_BRANCH);
    assert_eq!(defaults[1].repository, "telegram-webapp-sdk");
    assert_eq!(defaults[1].contributors_branch, DEFAULT_CONTRIBUTORS_BRANCH);
}

#[test]
fn normalize_repository_trims_whitespace() {
    let result = normalize_repository("  repo  ").expect("should normalize");
    assert_eq!(result, "repo");
}

#[test]
fn normalize_contributors_branch_trims_whitespace() {
    let result = normalize_contributors_branch("  main  ").expect("should normalize");
    assert_eq!(result, "main");
}

#[test]
fn open_source_repository_equality() {
    let repo1 = OpenSourceRepository {
        repository: "test".to_owned(),
        contributors_branch: "main".to_owned(),
    };
    let repo2 = OpenSourceRepository {
        repository: "test".to_owned(),
        contributors_branch: "main".to_owned(),
    };
    assert_eq!(repo1, repo2);
}

#[test]
fn open_source_repository_clone() {
    let repo = OpenSourceRepository {
        repository: "original".to_owned(),
        contributors_branch: "develop".to_owned(),
    };
    let cloned = repo.clone();
    assert_eq!(repo.repository, cloned.repository);
    assert_eq!(repo.contributors_branch, cloned.contributors_branch);
}

#[test]
fn open_source_repository_debug_format() {
    let repo = OpenSourceRepository {
        repository: "test".to_owned(),
        contributors_branch: "main".to_owned(),
    };
    let debug_str = format!("{:?}", repo);
    assert!(debug_str.contains("OpenSourceRepository"));
    assert!(debug_str.contains("repository"));
}

fn validation_message(error: Error) -> String {
    match error {
        Error::Validation { message } => message,
        other => panic!("expected validation error, got {other:?}"),
    }
}

#[test]
fn input_is_trimmed_before_it_is_parsed() {
    let targets = resolve_open_source_targets(Some("  \n[\"repo\"]\t ")).expect("expected success");
    assert_eq!(targets.len(), 1);
    assert_eq!(targets[0].repository, "repo");
}

#[test]
fn null_branch_counts_as_absent_and_other_members_are_ignored() {
    let targets = resolve_open_source_targets(Some(
        "[{\"extra\":1,\"contributors_branch\":null,\"repository\":\" repo \"}]",
    ))
    .expect("expected success");
    assert_eq!(
        targets,
        vec![OpenSourceRepository {
            repository: "repo".to_owned(),
            contributors_branch: "main".to_owned(),
        }]
    );
}

#[test]
fn shapes_that_are_neither_name_nor_descriptor_are_rejected() {
    for input in [
        "[1]",
        "[null]",
        "[true]",
        "[{}]",
        "[{\"repository\":1}]",
        "[{\"repository\":\"r\",\"contributors_branch\":2}]",
        "[[]]",
        "[[\"a\",\"b\",\"c\"]]",
        "[\"ok\", 3]",
    ] {
        let message = validation_message(resolve_open_source_targets(Some(input)).unwrap_err());
        assert_eq!(
            message,
            "invalid repositories JSON: data did not match any variant of untagged enum RepositoryInput",
            "{input}"
        );
    }
    for input in ["{}", "\"repo\"", "3", "null"] {
        let message = validation_message(resolve_open_source_targets(Some(input)).unwrap_err());
        assert_eq!(message, "invalid repositories JSON: expected a JSON array", "{input}");
    }
}

#[test]
fn every_element_is_decoded_before_any_is_checked() {
    let message =
        validation_message(resolve_open_source_targets(Some("[\"\", 7]")).unwrap_err());
    assert!(message.starts_with("invalid repositories JSON:"));
}

#[test]
fn descriptors_may_be_given_by_position() {
    let targets = resolve_open_source_targets(Some("[[\"repo\"], [\"other\", \" dev \"], [\"x\", null]]"))
        .expect("expected success");
    assert_eq!(targets.len(), 3);
    assert_eq!(targets[0].contributors_branch, "main");
    assert_eq!(targets[1].repository, "other");
    assert_eq!(targets[1].contributors_branch, "dev");
    assert_eq!(targets[2].contributors_branch, "main");
}

#[test]
fn syntax_errors_carry_the_parser_message() {
    let message = validation_message(resolve_open_source_targets(Some("[\"a\",")).unwrap_err());
    assert!(message.starts_with("invalid repositories JSON: "));
    assert!(message.contains("line 1"), "{message}");
}

#[test]
fn documents_are_resolved_from_their_tree() {
    let document = JsonValue::Array(vec![
        JsonValue::Text(" one ".to_owned()),
        JsonValue::Object(vec![
            ("contributors_branch".to_owned(), JsonValue::Text("dev".to_owned())),
            ("repository".to_owned(), JsonValue::Text("two".to_owned())),
        ]),
    ]);
    let targets = repositories_from_document(&document).expect("expected success");
    assert_eq!(targets.len(), 2);
    assert_eq!(targets[0].repository, "one");
    assert_eq!(targets[1].repository, "two");
    assert_eq!(targets[1].contributors_branch, "dev");

    assert_eq!(
        decode_input(&JsonValue::Text("n".to_owned())),
        Some(RepositoryInput::Name("n".to_owned()))
    );
    assert_eq!(decode_input(&JsonValue::Number("1".to_owned())), None);
    assert_eq!(
        validation_message(repositories_from_document(&JsonValue::Array(Vec::new())).unwrap_err()),
        "repositories input must be a non-empty JSON array of repository names"
    );
    assert_eq!(
        validation_message(repositories_from_document(&JsonValue::Null).unwrap_err()),
        "invalid repositories JSON: expected a JSON array"
    );
}

#[test]
fn rules_of_names_and_branches() {
    assert_eq!(
        validation_message(normalize_repository(" \t").unwrap_err()),
        "repository names cannot be empty strings"
    );
    assert_eq!(normalize_repository("my repo").unwrap(), "my repo");
    assert_eq!(
        validation_message(normalize_contributors_branch("").unwrap_err()),
        "contributors_branch cannot be empty"
    );
    assert_eq!(
        validation_message(normalize_contributors_branch("a b").unwrap_err()),
        "contributors_branch cannot contain whitespace"
    );
}
