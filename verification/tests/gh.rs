use imir::gh::{
    already_open, create_pr_arguments, created, pr_from_listing, read_created_pr, read_existing_pr,
};
use imir::{Error, PrCreateResult};

#[test]
fn pr_create_result_clone() {
    let result = PrCreateResult {
        created: false,
        pr_number: Some(42),
        pr_url: None,
        message: "PR exists".to_string(),
    };

    let cloned = result.clone();
    assert_eq!(result.created, cloned.created);
    assert_eq!(result.pr_number, cloned.pr_number);
}

#[test]
fn listing_names_the_open_pull_request() {
    assert_eq!(read_existing_pr(true, "42\n").unwrap(), Some(42));
    assert_eq!(read_existing_pr(true, " 18446744073709551615 ").unwrap(), Some(u64::MAX));
    assert_eq!(read_existing_pr(true, "+7").unwrap(), Some(7));
    assert_eq!(read_existing_pr(true, "").unwrap(), None);
    assert_eq!(read_existing_pr(true, "  \n").unwrap(), None);
    assert_eq!(read_existing_pr(true, "null\n").unwrap(), None);
    assert_eq!(read_existing_pr(false, "42").unwrap(), None);
    assert_eq!(read_existing_pr(false, "not a number").unwrap(), None);
}

#[test]
fn listing_that_is_no_number_is_an_error() {
    for output in ["abc", "4 2", "-1", "18446744073709551616", "Null"] {
        match read_existing_pr(true, output) {
            Err(Error::Validation { message }) => {
                assert!(message.starts_with("invalid PR number: "), "{message}");
                assert!(message.len() > "invalid PR number: ".len());
            }
            other => panic!("expected a validation error for {output:?}, got {other:?}"),
        }
    }
    match pr_from_listing(true, "x", Err("why".to_string())) {
        Err(Error::Validation { message }) => assert_eq!(message, "invalid PR number: why"),
        other => panic!("expected a validation error, got {other:?}"),
    }
    assert_eq!(pr_from_listing(true, "x", Ok(3)).unwrap(), Some(3));
    assert_eq!(pr_from_listing(true, "null", Ok(3)).unwrap(), None);
}

#[test]
fn results_describe_what_happened() {
    let open = already_open(12, "o/r", "head", "main");
    assert!(!open.created);
    assert_eq!(open.pr_number, Some(12));
    assert_eq!(open.pr_url, None);
    assert_eq!(open.message, "PR #12 already open for o/r:head -> main");

    let new = created("https://github.com/o/r/pull/3");
    assert!(new.created);
    assert_eq!(new.pr_number, None);
    assert_eq!(new.pr_url.as_deref(), Some("https://github.com/o/r/pull/3"));
    assert_eq!(new.message, "Created PR: https://github.com/o/r/pull/3");
}

#[test]
fn creation_output_is_the_address_or_the_error() {
    assert_eq!(read_created_pr(true, " https://x/1\n", "ignored").unwrap(), "https://x/1");
    match read_created_pr(false, "https://x/1", "denied\n") {
        Err(Error::Service { message }) => assert_eq!(message, "gh pr create failed: denied\n"),
        other => panic!("expected a service error, got {other:?}"),
    }
}

#[test]
fn arguments_name_every_label() {
    let args = create_pr_arguments("o/r", "h", "b", "t", "body", &["ci", "metrics"]);
    assert_eq!(
        args,
        [
            "pr", "create", "-R", "o/r", "--head", "h", "--base", "b", "--title", "t", "--body",
            "body", "--label", "ci", "--label", "metrics"
        ]
    );
    let args = create_pr_arguments("o/r", "h", "b", "t", "", &[]);
    assert_eq!(args.len(), 12);
    assert_eq!(args[11], "");
}
