//! The placeholder badge of a render target: a small SVG whose text is
//! escaped and whose colours follow the kind of the target.

use std::borrow::Cow;
use vstd::prelude::*;
use vstd::string::StringExecFns;
use crate::config::TargetKind;
use crate::normalizer::{RenderTarget, RenderTargetView};
use crate::text::{push_char, to_chars};

verus! {

/// The two colours of a badge background.
#[derive(Debug, Clone, Copy)]
pub struct BadgeGradient {
    /// Colour at the start of the gradient.
    pub primary: &'static str,
    /// Colour at the end of the gradient.
    pub secondary: &'static str,
}

/// The start colour of the background of a kind.
pub open spec fn primary_colour(kind: TargetKind) -> Seq<char> {
    match kind {
        TargetKind::Profile => "#6f42c1"@,
        TargetKind::OpenSource => "#1f883d"@,
        TargetKind::PrivateProject => "#0a3069"@,
    }
}

/// The end colour of the background of a kind.
pub open spec fn secondary_colour(kind: TargetKind) -> Seq<char> {
    match kind {
        TargetKind::Profile => "#8648d1"@,
        TargetKind::OpenSource => "#2ea043"@,
        TargetKind::PrivateProject => "#1b4b91"@,
    }
}

/// The background gradient of a kind of target.
pub fn badge_background(kind: TargetKind) -> (r: BadgeGradient)
    ensures
        r.primary@ == primary_colour(kind),
        r.secondary@ == secondary_colour(kind),
{
    match kind {
        TargetKind::Profile => BadgeGradient { primary: "#6f42c1", secondary: "#8648d1" },
        TargetKind::OpenSource => BadgeGradient { primary: "#1f883d", secondary: "#2ea043" },
        TargetKind::PrivateProject => BadgeGradient { primary: "#0a3069", secondary: "#1b4b91" },
    }
}

/// The label of a target: `owner/repository`, or the owner alone where the
/// target has no repository.
pub open spec fn label_text(target: RenderTargetView) -> Seq<char> {
    match target.repository {
        Some(repository) => target.owner + "/"@ + repository,
        None => target.owner,
    }
}

/// The label printed on the badge of a target.
pub fn badge_label(target: &RenderTarget) -> (r: Cow<'_, str>)
    ensures
        r@ == label_text(target@),
        r is Borrowed <==> target.repository is None,
{
    match &target.repository {
        Some(repository) => Cow::Owned(
            target.owner.clone().concat("/").concat(repository.as_str()),
        ),
        None => Cow::Borrowed(target.owner.as_str()),
    }
}

/// Whether `c` has an entity of its own in XML text.
pub open spec fn is_xml_special(c: char) -> bool {
    c == '&' || c == '<' || c == '>' || c == '"' || c == '\''
}

/// What stands for `c` in XML text.
pub open spec fn xml_entity(c: char) -> Seq<char> {
    if c == '&' {
        "&amp;"@
    } else if c == '<' {
        "&lt;"@
    } else if c == '>' {
        "&gt;"@
    } else if c == '"' {
        "&quot;"@
    } else if c == '\'' {
        "&apos;"@
    } else {
        seq![c]
    }
}

/// `s` with each character replaced by what stands for it in XML text.
pub open spec fn xml_escaped(s: Seq<char>) -> Seq<char>
    decreases s.len(),
{
    if s.len() == 0 {
        Seq::empty()
    } else {
        xml_escaped(s.drop_last()) + xml_entity(s.last())
    }
}

/// Whether some character of `s` has an entity of its own.
pub open spec fn needs_xml_escape(s: Seq<char>) -> bool {
    exists|k: int| 0 <= k < s.len() && is_xml_special(#[trigger] s[k])
}

/// A text without special characters is its own escaped form.
pub proof fn plain_text_is_unchanged(s: Seq<char>)
    requires
        !needs_xml_escape(s),
    ensures
        xml_escaped(s) == s,
    decreases s.len(),
{
    if s.len() > 0 {
        let head = s.drop_last();
        assert forall|k: int| 0 <= k < head.len() implies !is_xml_special(#[trigger] head[k]) by {
            assert(head[k] == s[k]);
        }
        plain_text_is_unchanged(head);
        assert(!is_xml_special(s[s.len() - 1]));
        assert(head + seq![s.last()] == s);
    }
}

/// The escaped form of the characters in `value`, and whether any of them
/// needed escaping.
fn escaped_chars(value: &Vec<char>) -> (r: (String, bool))
    ensures
        r.0@ == xml_escaped(value@),
        r.1 == needs_xml_escape(value@),
{
    let mut escaped = String::new();
    let mut changed = false;
    let mut at: usize = 0;
    assert(value@.take(0) == Seq::<char>::empty());
    while at < value.len()
        invariant
            at <= value.len(),
            escaped@ == xml_escaped(value@.take(at as int)),
            changed == needs_xml_escape(value@.take(at as int)),
        decreases value.len() - at,
    {
        let character = value[at];
        proof {
            let upto = value@.take(at as int + 1);
            let before = value@.take(at as int);
            assert(upto.drop_last() == before);
            assert(upto.last() == character);
            assert(escaped@ + seq![character] == escaped@.push(character));
            if needs_xml_escape(before) {
                let k = choose|k: int| 0 <= k < before.len() && is_xml_special(#[trigger] before[k]);
                assert(is_xml_special(upto[k]));
            }
            if is_xml_special(character) {
                assert(is_xml_special(upto[at as int]));
            }
            if needs_xml_escape(upto) && !is_xml_special(character) {
                let k = choose|k: int| 0 <= k < upto.len() && is_xml_special(#[trigger] upto[k]);
                assert(is_xml_special(before[k]));
            }
        }
        if character == '&' {
            escaped.append("&amp;");
            changed = true;
        } else if character == '<' {
            escaped.append("&lt;");
            changed = true;
        } else if character == '>' {
            escaped.append("&gt;");
            changed = true;
        } else if character == '"' {
            escaped.append("&quot;");
            changed = true;
        } else if character == '\'' {
            escaped.append("&apos;");
            changed = true;
        } else {
            push_char(&mut escaped, character);
        }
        at += 1;
    }
    assert(value@.take(value.len() as int) == value@);
    (escaped, changed)
}

/// Escapes the characters `&`, `<`, `>`, `"` and `'` for XML text. A value
/// without any of them is handed back as it is.
pub fn escape_xml(value: &str) -> (r: Cow<'_, str>)
    ensures
        r@ == xml_escaped(value@),
        r is Borrowed <==> !needs_xml_escape(value@),
{
    let chars = to_chars(value);
    let (escaped, changed) = escaped_chars(&chars);
    if changed {
        Cow::Owned(escaped)
    } else {
        proof {
            plain_text_is_unchanged(value@);
        }
        Cow::Borrowed(value)
    }
}

/// The escaped form of `value` as an owned text.
fn escaped_text(value: &str) -> (r: String)
    ensures
        r@ == xml_escaped(value@),
{
    let chars = to_chars(value);
    escaped_chars(&chars).0
}

/// The SVG placeholder of a target: a rounded rectangle filled with the
/// gradient of its kind, its escaped label and its escaped display name.
pub open spec fn svg_content(target: RenderTargetView) -> Seq<char> {
    let display = xml_escaped(target.display_name);
    let label = xml_escaped(label_text(target));
    "<?xml version=\"1.0\" encoding=\"UTF-8\"?>\n<svg xmlns=\"http://www.w3.org/2000/svg\" role=\"img\" aria-label=\""@
        + display + "\" width=\"440\" height=\"140\" viewBox=\"0 0 440 140\">\n"@
        + "  <defs>\n    <linearGradient id=\"imir-badge\" x1=\"0\" y1=\"0\" x2=\"1\" y2=\"1\">\n      <stop offset=\"0%\" stop-color=\""@
        + primary_colour(target.kind)
        + "\" stop-opacity=\"0.92\"/>\n      <stop offset=\"100%\" stop-color=\""@
        + secondary_colour(target.kind)
        + "\" stop-opacity=\"1\"/>\n    </linearGradient>\n  </defs>\n"@
        + "  <rect x=\"8\" y=\"8\" width=\"424\" height=\"124\" rx=\"16\" fill=\"url(#imir-badge)\"/>"@
        + "\n  <text x=\"220\" y=\"60\" text-anchor=\"middle\" font-family=\"'Segoe UI', 'SF Pro Display', sans-serif\" font-size=\"22\" fill=\"#ffffff\">"@
        + label + "</text>\n"@
        + "  <text x=\"220\" y=\"98\" text-anchor=\"middle\" font-family=\"'Segoe UI', 'SF Pro Display', sans-serif\" font-size=\"18\" fill=\"#f6f8fa\">"@
        + display + "</text>\n"@ + "</svg>\n"@
}

/// Builds the SVG placeholder of a target.
pub fn build_svg_content(target: &RenderTarget) -> (r: String)
    ensures
        r@ == svg_content(target@),
{
    let background = badge_background(target.kind);
    let label = match &target.repository {
        Some(repository) => target.owner.clone().concat("/").concat(repository.as_str()),
        None => target.owner.clone(),
    };
    let escaped_label = escaped_text(label.as_str());
    let escaped_display = escaped_text(target.display_name.as_str());
    let mut buffer = String::from_str(
        "<?xml version=\"1.0\" encoding=\"UTF-8\"?>\n<svg xmlns=\"http://www.w3.org/2000/svg\" role=\"img\" aria-label=\"",
    );
    buffer.append(escaped_display.as_str());
    buffer.append("\" width=\"440\" height=\"140\" viewBox=\"0 0 440 140\">\n");
    buffer.append(
        "  <defs>\n    <linearGradient id=\"imir-badge\" x1=\"0\" y1=\"0\" x2=\"1\" y2=\"1\">\n      <stop offset=\"0%\" stop-color=\"",
    );
    buffer.append(background.primary);
    buffer.append("\" stop-opacity=\"0.92\"/>\n      <stop offset=\"100%\" stop-color=\"");
    buffer.append(background.secondary);
    buffer.append("\" stop-opacity=\"1\"/>\n    </linearGradient>\n  </defs>\n");
    buffer.append(
        "  <rect x=\"8\" y=\"8\" width=\"424\" height=\"124\" rx=\"16\" fill=\"url(#imir-badge)\"/>",
    );
    buffer.append(
        "\n  <text x=\"220\" y=\"60\" text-anchor=\"middle\" font-family=\"'Segoe UI', 'SF Pro Display', sans-serif\" font-size=\"22\" fill=\"#ffffff\">",
    );
    buffer.append(escaped_label.as_str());
    buffer.append("</text>\n");
    buffer.append(
        "  <text x=\"220\" y=\"98\" text-anchor=\"middle\" font-family=\"'Segoe UI', 'SF Pro Display', sans-serif\" font-size=\"18\" fill=\"#f6f8fa\">",
    );
    buffer.append(escaped_display.as_str());
    buffer.append("</text>\n");
    buffer.append("</svg>\n");
    buffer
}

/// Result of generating badge assets for a render target.
#[derive(Debug, Clone, PartialEq, Eq)]
pub struct BadgeAssets {
    /// Path to the rendered SVG badge.
    pub svg_path: String,
    /// Path to the JSON manifest describing the badge.
    pub manifest_path: String,
}

/// Names the files written for a slug: `{slug}.svg` for the badge and
/// `{slug}.json` for its manifest.
pub fn badge_file_names(slug: &str) -> (r: (String, String))
    ensures
        r.0@ == slug@ + ".svg"@,
        r.1@ == slug@ + ".json"@,
{
    (String::from_str(slug).concat(".svg"), String::from_str(slug).concat(".json"))
}

} // verus!
