use imir::readme::{
    escape_html, generate_private_section, generate_profile_table, generate_repository_table,
    render_readme, replace_section,
};
use imir::{
    BadgeDescriptor, BadgeStyle, BadgeWidgetAlignment, BadgeWidgetDescriptor, Error, RenderTarget,
    TargetKind, TargetsDocument,
};

const OPEN_SOURCE_START_MARKER: &str = "<summary>Open-source repositories</summary>";
const PRIVATE_START_MARKER: &str = "<summary>Private repositories</summary>";
const PROFILE_START_MARKER: &str = "<summary>Profile badges</summary>";
const UPDATE_MARKER: &str = "<!-- IMIR will update this table automatically -->";
const DETAILS_END_MARKER: &str = "</details>";

fn sample_target(owner: &str, repo: Option<&str>, kind: TargetKind, slug: &str) -> RenderTarget {
    RenderTarget {
        slug: slug.to_owned(),
        owner: owner.to_owned(),
        repository: repo.map(String::from),
        kind,
        branch_name: "main".to_owned(),
        target_path: format!("metrics/{}.svg", slug),
        temp_artifact: format!(".metrics-tmp/{}.svg", slug),
        time_zone: "UTC".to_owned(),
        display_name: slug.to_owned(),
        contributors_branch: "main".to_owned(),
        include_private: false,
        badge: BadgeDescriptor {
            style: BadgeStyle::Classic,
            widget: BadgeWidgetDescriptor {
                columns: 2,
                alignment: BadgeWidgetAlignment::Center,
                border_radius: 6,
            },
        },
    }
}

fn sample_readme() -> String {
    format!(
        "# Test README\n\n<details>\n{}\n\n{}\n\nOld content here\n\n{}\n</details>\n\n<details>\n{}\n\n{}\n\nOld private content\n\n{}\n</details>\n\n<details>\n{}\n\n{}\n\nOld profile content\n\n{}\n</details>\n",
        OPEN_SOURCE_START_MARKER,
        UPDATE_MARKER,
        DETAILS_END_MARKER,
        PRIVATE_START_MARKER,
        UPDATE_MARKER,
        DETAILS_END_MARKER,
        PROFILE_START_MARKER,
        UPDATE_MARKER,
        DETAILS_END_MARKER
    )
}

#[test]
fn generate_repository_table_creates_valid_html() {
    let target1 = sample_target("user1", Some("repo1"), TargetKind::OpenSource, "repo1");
    let target2 = sample_target("user2", Some("repo2"), TargetKind::OpenSource, "repo2");
    let targets = vec![&target1, &target2];

    let table = generate_repository_table(&targets);
    assert!(table.contains("<table>"));
    assert!(table.contains("user1/repo1"));
    assert!(table.contains("user2/repo2"));
    assert!(table.contains("</table>"));
}

#[test]
fn generate_repository_table_handles_empty_list() {
    let targets: Vec<&RenderTarget> = vec![];
    let result = generate_repository_table(&targets);
    assert!(result.contains("No open-source repositories"));
}

#[test]
fn generate_profile_table_creates_valid_html() {
    let target = sample_target("user1", None, TargetKind::Profile, "profile");
    let targets = vec![&target];

    let table = generate_profile_table(&targets);
    assert!(table.contains("<table>"));
    assert!(table.contains("user1"));
    assert!(table.contains("profile metrics"));
}

#[test]
fn escape_html_handles_special_characters() {
    let input = "<script>alert('test')</script>";
    let escaped = escape_html(input);
    assert_eq!(escaped, "&lt;script&gt;alert(&#x27;test&#x27;)&lt;/script&gt;");
}

#[test]
fn update_readme_replaces_sections() {
    let initial_content = sample_readme();
    let document = TargetsDocument {
        targets: vec![sample_target(
            "testuser",
            Some("testrepo"),
            TargetKind::OpenSource,
            "testrepo",
        )],
    };

    let update = render_readme(&initial_content, &document).expect("update failed");

    assert!(update.changed);
    assert!(update.content.contains("testuser/testrepo"));
    assert!(!update.content.contains("Old content here"));
}

#[test]
fn escape_html_matches_chained_replacement() {
    for input in ["", "plain", "a&b", "&amp;", "<>\"'&", "'&'<\"", "ünï&"] {
        let expected = input
            .replace('&', "&amp;")
            .replace('<', "&lt;")
            .replace('>', "&gt;")
            .replace('"', "&quot;")
            .replace('\'', "&#x27;");
        assert_eq!(escape_html(input), expected);
    }
}

#[test]
fn repository_table_is_exact() {
    let target = sample_target("o&o", Some("r<1>"), TargetKind::OpenSource, "r-1");
    let table = generate_repository_table(&[&target]);
    assert_eq!(
        table,
        "<table>\n  <thead>\n    <tr><th>Repository</th><th>Badge</th></tr>\n  </thead>\n  <tbody>\n    <tr>\n      <td><code>o&amp;o/r&lt;1&gt;</code></td>\n      <td><img alt=\"r&lt;1&gt; metrics\" src=\"https://raw.githubusercontent.com/RAprogramm/infra-metrics-insight-renderer/main/metrics/r-1.svg\" /></td>\n    </tr>\n  </tbody>\n</table>"
    );
    assert_eq!(generate_private_section(&[&target]), table);
}

#[test]
fn profile_table_is_exact() {
    let target = sample_target("user1", None, TargetKind::Profile, "user1-profile");
    assert_eq!(
        generate_profile_table(&[&target]),
        "<table>\n  <thead>\n    <tr><th>Account</th><th>Badge</th></tr>\n  </thead>\n  <tbody>\n    <tr>\n      <td><code>user1</code></td>\n      <td><img alt=\"user1 profile metrics\" src=\"https://raw.githubusercontent.com/RAprogramm/infra-metrics-insight-renderer/main/metrics/user1-profile.svg\" /></td>\n    </tr>\n  </tbody>\n</table>"
    );
}

#[test]
fn empty_sections_have_their_notes() {
    assert_eq!(
        generate_repository_table(&[]),
        "<p>\n  No open-source repositories registered yet.\n</p>"
    );
    assert_eq!(
        generate_private_section(&[]),
        "<p>\n  Private dashboards follow the same embedding rules. Publish badges from this section once private projects are registered.\n</p>"
    );
    assert_eq!(generate_profile_table(&[]), "<p>\n  No profile badges registered yet.\n</p>");
}

#[test]
fn repository_without_name_has_an_empty_name() {
    let target = sample_target("solo", None, TargetKind::PrivateProject, "solo");
    let table = generate_private_section(&[&target]);
    assert!(table.contains("<code>solo/</code>"));
    assert!(table.contains("alt=\" metrics\""));
}

#[test]
fn replace_section_keeps_what_surrounds_the_generated_part() {
    let content = format!("head {PROFILE_START_MARKER} mid {UPDATE_MARKER} old {DETAILS_END_MARKER} tail");
    let replaced = replace_section(&content, PROFILE_START_MARKER, "NEW").expect("expected success");
    assert_eq!(
        replaced,
        format!("head {PROFILE_START_MARKER} mid {UPDATE_MARKER}\n\nNEW\n\n{DETAILS_END_MARKER} tail")
    );
}

#[test]
fn replace_section_seeks_markers_in_order() {
    let content = format!("{UPDATE_MARKER} a {DETAILS_END_MARKER} {PRIVATE_START_MARKER} b {DETAILS_END_MARKER}");
    match replace_section(&content, PRIVATE_START_MARKER, "x") {
        Err(Error::Validation { message }) => assert_eq!(message, "update marker not found"),
        other => panic!("unexpected result: {other:?}"),
    }
    let content = format!("{DETAILS_END_MARKER} {PRIVATE_START_MARKER} {UPDATE_MARKER} b");
    match replace_section(&content, PRIVATE_START_MARKER, "x") {
        Err(Error::Validation { message }) => assert_eq!(message, "details end marker not found"),
        other => panic!("unexpected result: {other:?}"),
    }
    match replace_section("nothing", PRIVATE_START_MARKER, "x") {
        Err(Error::Validation { message }) => assert_eq!(
            message,
            "summary marker not found: <summary>Private repositories</summary>"
        ),
        other => panic!("unexpected result: {other:?}"),
    }
}

#[test]
fn render_readme_groups_targets_by_kind() {
    let document = TargetsDocument {
        targets: vec![
            sample_target("pat", None, TargetKind::Profile, "pat-profile"),
            sample_target("o1", Some("open"), TargetKind::OpenSource, "open"),
            sample_target("o2", Some("secret"), TargetKind::PrivateProject, "secret"),
        ],
    };
    let update = render_readme(&sample_readme(), &document).expect("update failed");
    let open_at = update.content.find("o1/open").expect("open-source row");
    let private_at = update.content.find("o2/secret").expect("private row");
    let profile_at = update.content.find("pat profile metrics").expect("profile row");
    assert!(open_at < private_at && private_at < profile_at);
    assert!(!update.content.contains("Old private content"));
    assert!(!update.content.contains("Old profile content"));

    let again = render_readme(&update.content, &document).expect("update failed");
    assert!(!again.changed);
    assert_eq!(again.content, update.content);
}

#[test]
fn render_readme_reports_missing_section() {
    let document = TargetsDocument { targets: Vec::new() };
    match render_readme("no markers", &document) {
        Err(Error::Validation { message }) => assert_eq!(
            message,
            "summary marker not found: <summary>Open-source repositories</summary>"
        ),
        other => panic!("unexpected result: {other:?}"),
    }
}
