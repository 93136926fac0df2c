use imir::discover::{merge_discovered, next_page, parse_source, DiscoveryLog, DiscoverySource};
use imir::sync::{merge_discovered_targets, sync_summary};
use imir::{DiscoveredRepository, Error, TargetConfig, TargetEntry, TargetKind};

fn entry(owner: &str, repository: Option<&str>, kind: TargetKind) -> TargetEntry {
    TargetEntry {
        owner: owner.to_owned(),
        repository: repository.map(str::to_owned),
        target_type: kind,
        slug: None,
        branch_name: None,
        contributors_branch: None,
        target_path: None,
        temp_artifact: None,
        time_zone: None,
        display_name: None,
        include_private: None,
        badge: None,
    }
}

fn found(owner: &str, repository: &str) -> DiscoveredRepository {
    DiscoveredRepository { owner: owner.to_owned(), repository: repository.to_owned() }
}

fn keys(config: &TargetConfig) -> Vec<(String, Option<String>)> {
    config.targets.iter().map(|e| (e.owner.clone(), e.repository.clone())).collect()
}

#[test]
fn sync_targets_adds_new_repositories() {
    let mut config =
        TargetConfig { targets: vec![entry("existing", Some("repo"), TargetKind::OpenSource)] };
    let added = merge_discovered_targets(&mut config, &[found("newuser", "newrepo")]);
    assert_eq!(added, 1);
    assert!(config.targets.iter().any(|e| e.owner == "newuser"
        && e.repository.as_deref() == Some("newrepo")
        && e.target_type == TargetKind::OpenSource));
}

#[test]
fn sync_targets_skips_duplicates() {
    let mut config =
        TargetConfig { targets: vec![entry("existing", Some("repo"), TargetKind::OpenSource)] };
    let added = merge_discovered_targets(&mut config, &[found("existing", "repo")]);
    assert_eq!(added, 0);
    assert_eq!(config.targets.len(), 1);
}

#[test]
fn sync_targets_adds_multiple_repositories() {
    let mut config =
        TargetConfig { targets: vec![entry("existing", Some("repo"), TargetKind::OpenSource)] };
    let discovered = [found("user1", "repo1"), found("user2", "repo2"), found("user1", "repo3")];
    let added = merge_discovered_targets(&mut config, &discovered);
    assert_eq!(added, 3);
    assert_eq!(
        keys(&config),
        [
            ("existing".to_owned(), Some("repo".to_owned())),
            ("user1".to_owned(), Some("repo1".to_owned())),
            ("user1".to_owned(), Some("repo3".to_owned())),
            ("user2".to_owned(), Some("repo2".to_owned())),
        ]
    );
}

#[test]
fn sync_targets_preserves_existing_customizations() {
    let mut custom = entry("existing", Some("repo"), TargetKind::OpenSource);
    custom.slug = Some("custom-slug".to_owned());
    custom.display_name = Some("Custom Name".to_owned());
    let mut config = TargetConfig { targets: vec![custom] };
    merge_discovered_targets(&mut config, &[found("newuser", "newrepo")]);
    let kept = config.targets.iter().find(|e| e.owner == "existing").expect("entry kept");
    assert_eq!(kept.slug.as_deref(), Some("custom-slug"));
    assert_eq!(kept.display_name.as_deref(), Some("Custom Name"));
}

#[test]
fn sync_targets_sorts_alphabetically() {
    let mut config =
        TargetConfig { targets: vec![entry("zebra", Some("repo"), TargetKind::OpenSource)] };
    merge_discovered_targets(&mut config, &[found("alpha", "repo")]);
    assert_eq!(config.targets[0].owner, "alpha");
    assert_eq!(config.targets[1].owner, "zebra");
}

#[test]
fn sync_targets_handles_empty_discovered_list() {
    let mut config =
        TargetConfig { targets: vec![entry("existing", Some("repo"), TargetKind::OpenSource)] };
    let added = merge_discovered_targets(&mut config, &[]);
    assert_eq!(added, 0);
    assert_eq!(config.targets.len(), 1);
}

#[test]
fn nothing_is_reordered_when_nothing_is_added() {
    let mut config = TargetConfig {
        targets: vec![
            entry("z", Some("b"), TargetKind::OpenSource),
            entry("a", None, TargetKind::Profile),
            entry("z", Some("a"), TargetKind::PrivateProject),
        ],
    };
    let before = keys(&config);
    assert_eq!(merge_discovered_targets(&mut config, &[found("z", "a"), found("z", "b")]), 0);
    assert_eq!(keys(&config), before);
}

#[test]
fn sorting_is_stable_and_puts_profiles_first() {
    let mut first = entry("o", Some("r"), TargetKind::OpenSource);
    first.slug = Some("first".to_owned());
    let mut second = entry("o", Some("r"), TargetKind::PrivateProject);
    second.slug = Some("second".to_owned());
    let mut config = TargetConfig {
        targets: vec![
            entry("p", Some("x"), TargetKind::OpenSource),
            first,
            entry("o", None, TargetKind::Profile),
            second,
            entry("B", Some("x"), TargetKind::OpenSource),
        ],
    };
    let added = merge_discovered_targets(&mut config, &[found("o", "a"), found("o", "a")]);
    assert_eq!(added, 2);
    let mut expected: Vec<(String, Option<String>)> = vec![
        ("p".into(), Some("x".into())),
        ("o".into(), Some("r".into())),
        ("o".into(), None),
        ("o".into(), Some("r".into())),
        ("B".into(), Some("x".into())),
        ("o".into(), Some("a".into())),
        ("o".into(), Some("a".into())),
    ];
    expected.sort();
    assert_eq!(keys(&config), expected);
    let slugs: Vec<Option<&str>> = config
        .targets
        .iter()
        .filter(|e| e.repository.as_deref() == Some("r"))
        .map(|e| e.slug.as_deref())
        .collect();
    assert_eq!(slugs, [Some("first"), Some("second")]);
}

#[test]
fn a_profile_does_not_hide_a_repository() {
    let mut config = TargetConfig { targets: vec![entry("o", None, TargetKind::Profile)] };
    assert_eq!(merge_discovered_targets(&mut config, &[found("o", "r")]), 1);
    assert_eq!(config.targets.len(), 2);
}

#[test]
fn synchronization_is_reported() {
    assert_eq!(sync_summary(0, "targets.yaml"), "Synced 0 new repositories to targets.yaml");
    assert_eq!(sync_summary(12, "a/b.yaml"), "Synced 12 new repositories to a/b.yaml");
}

#[test]
fn sources_are_named() {
    assert_eq!(parse_source("badge").unwrap(), DiscoverySource::Badge);
    assert_eq!(parse_source("stargazers").unwrap(), DiscoverySource::Stargazers);
    assert_eq!(parse_source("all").unwrap(), DiscoverySource::All);
    match parse_source("everything") {
        Err(Error::Validation { message }) => assert_eq!(
            message,
            "unsupported source: everything. Use: badge, stargazers, or all"
        ),
        other => panic!("expected a validation error, got {other:?}"),
    }
}

#[test]
fn pages_end_with_an_empty_page_or_at_the_limit() {
    assert_eq!(next_page(1, 100, 10), Some(2));
    assert_eq!(next_page(9, 1, 10), Some(10));
    assert_eq!(next_page(10, 100, 10), None);
    assert_eq!(next_page(11, 100, 10), None);
    assert_eq!(next_page(1, 0, 10), None);
    assert_eq!(next_page(1, 5, 0), None);
    assert_eq!(next_page(u32::MAX, 5, u32::MAX), None);
}

#[test]
fn the_log_holds_each_repository_once() {
    let mut log = DiscoveryLog::new();
    assert!(log.needs_check("o", "r", None));
    assert!(log.needs_check("o", "r", Some(false)));
    assert!(!log.needs_check("o", "r", Some(true)));
    assert!(log.record("o", "r"));
    assert!(!log.needs_check("o", "r", None));
    assert!(log.needs_check("o", "other", None));
    assert!(log.needs_check("other", "r", None));
    assert!(!log.record("o", "r"));
    assert!(log.record("a", "b"));
    assert_eq!(log.len(), 2);
    assert!(log.contains("a", "b"));
    let all = log.into_repositories();
    let names: Vec<String> = all.iter().map(|r| r.to_string()).collect();
    assert_eq!(names, ["o/r", "a/b"]);
}

#[test]
fn discoveries_are_merged_by_owner_and_name() {
    let first = vec![found("b", "x"), found("a", "z"), found("a", "y")];
    let second = vec![found("a", "z"), found("ab", "a"), found("b", "x"), found("A", "q")];
    let merged = merge_discovered(first, second);
    let names: Vec<String> = merged.iter().map(|r| r.to_string()).collect();
    assert_eq!(names, ["A/q", "a/y", "a/z", "ab/a", "b/x"]);
    assert!(merge_discovered(Vec::new(), Vec::new()).is_empty());
}
