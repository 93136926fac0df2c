use std::borrow::Cow;

use imir::badge::{badge_background, badge_label, build_svg_content, escape_xml};
use imir::{
    BadgeDescriptor, BadgeStyle, BadgeWidgetAlignment, BadgeWidgetDescriptor, RenderTarget,
    TargetKind,
};

fn sample_target(kind: TargetKind) -> RenderTarget {
    RenderTarget {
        slug: "sample".to_owned(),
        owner: "octocat".to_owned(),
        repository: Some("example".to_owned()),
        kind,
        branch_name: "branch".to_owned(),
        target_path: "metrics/sample.svg".to_owned(),
        temp_artifact: "tmp/sample.svg".to_owned(),
        time_zone: "UTC".to_owned(),
        display_name: "Example Dashboard".to_owned(),
        contributors_branch: "main".to_owned(),
        include_private: false,
        badge: BadgeDescriptor {
            style: BadgeStyle::Classic,
            widget: BadgeWidgetDescriptor {
                columns: 2,
                alignment: BadgeWidgetAlignment::Center,
                border_radius: 6,
            },
        },
    }
}

#[test]
fn svg_renderer_escapes_dynamic_content() {
    let mut target = sample_target(TargetKind::PrivateProject);
    target.display_name = "ACME & <Partners>".to_owned();
    target.repository = None;
    target.owner = "Org > Team".to_owned();

    let svg = build_svg_content(&target);
    assert!(svg.contains("Org &gt; Team"));
    assert!(svg.contains("ACME &amp; &lt;Partners&gt;"));
}

#[test]
fn escape_xml_handles_all_special_characters() {
    let input = "&<>\"'normal";
    let result = escape_xml(input);
    assert_eq!(result, "&amp;&lt;&gt;&quot;&apos;normal");
}

#[test]
fn escape_xml_returns_borrowed_when_no_escaping_needed() {
    let input = "no special characters";
    let result = escape_xml(input);
    match result {
        Cow::Borrowed(s) => assert_eq!(s, input),
        Cow::Owned(_) => panic!("expected borrowed variant"),
    }
}

#[test]
fn badge_label_formats_repository_correctly() {
    let target = sample_target(TargetKind::OpenSource);
    let label = badge_label(&target);
    assert_eq!(label, "octocat/example");
}

#[test]
fn badge_label_uses_owner_when_no_repository() {
    let mut target = sample_target(TargetKind::Profile);
    target.repository = None;
    let label = badge_label(&target);
    assert_eq!(label, "octocat");
}

#[test]
fn badge_background_returns_correct_gradient_for_profile() {
    let gradient = badge_background(TargetKind::Profile);
    assert_eq!(gradient.primary, "#6f42c1");
    assert_eq!(gradient.secondary, "#8648d1");
}

#[test]
fn badge_background_returns_correct_gradient_for_open_source() {
    let gradient = badge_background(TargetKind::OpenSource);
    assert_eq!(gradient.primary, "#1f883d");
    assert_eq!(gradient.secondary, "#2ea043");
}

#[test]
fn badge_background_returns_correct_gradient_for_private() {
    let gradient = badge_background(TargetKind::PrivateProject);
    assert_eq!(gradient.primary, "#0a3069");
    assert_eq!(gradient.secondary, "#1b4b91");
}

#[test]
fn svg_content_includes_gradient_definition() {
    let target = sample_target(TargetKind::PrivateProject);
    let svg = build_svg_content(&target);
    assert!(svg.contains("<linearGradient id=\"imir-badge\""));
    assert!(svg.contains("#0a3069"));
    assert!(svg.contains("#1b4b91"));
}

#[test]
fn svg_content_includes_text_elements() {
    let target = sample_target(TargetKind::OpenSource);
    let svg = build_svg_content(&target);
    assert!(svg.contains("<text"));
    assert!(svg.contains("octocat/example"));
    assert!(svg.contains("Example Dashboard"));
}

#[test]
fn escape_xml_owns_the_text_when_anything_is_escaped() {
    match escape_xml("a<b") {
        Cow::Owned(text) => assert_eq!(text, "a&lt;b"),
        Cow::Borrowed(_) => panic!("expected owned variant"),
    }
    assert_eq!(escape_xml(""), "");
    assert_eq!(escape_xml("&amp;"), "&amp;amp;");
    assert_eq!(escape_xml("данные \"x\""), "данные &quot;x&quot;");
}

#[test]
fn svg_content_is_the_whole_document() {
    let mut target = sample_target(TargetKind::Profile);
    target.repository = None;
    target.display_name = "A&B".to_owned();
    let expected = "<?xml version=\"1.0\" encoding=\"UTF-8\"?>\n\
<svg xmlns=\"http://www.w3.org/2000/svg\" role=\"img\" aria-label=\"A&amp;B\" width=\"440\" height=\"140\" viewBox=\"0 0 440 140\">\n  \
<defs>\n    \
<linearGradient id=\"imir-badge\" x1=\"0\" y1=\"0\" x2=\"1\" y2=\"1\">\n      \
<stop offset=\"0%\" stop-color=\"#6f42c1\" stop-opacity=\"0.92\"/>\n      \
<stop offset=\"100%\" stop-color=\"#8648d1\" stop-opacity=\"1\"/>\n    \
</linearGradient>\n  \
</defs>\n  \
<rect x=\"8\" y=\"8\" width=\"424\" height=\"124\" rx=\"16\" fill=\"url(#imir-badge)\"/>\n  \
<text x=\"220\" y=\"60\" text-anchor=\"middle\" font-family=\"'Segoe UI', 'SF Pro Display', sans-serif\" font-size=\"22\" fill=\"#ffffff\">octocat</text>\n  \
<text x=\"220\" y=\"98\" text-anchor=\"middle\" font-family=\"'Segoe UI', 'SF Pro Display', sans-serif\" font-size=\"18\" fill=\"#f6f8fa\">A&amp;B</text>\n\
</svg>\n";
    assert_eq!(build_svg_content(&target), expected);
}
