//! Configuration document types describing metrics renderer targets.
//!
//! The types mirror the structure of the configuration documents. Optional
//! values stay optional here; the helper methods derive the values that have
//! a rule of their own, and the decode checks reject what no entry may hold.

use vstd::prelude::*;
use vstd::string::StringExecFns;
use crate::slug::{derive_slug, SlugStrategy};
use crate::text::{is_blank, text_eq, text_view, to_chars, to_text, trim, trim_bounds, trimmed};

verus! {

/// Supported categories of metrics targets.
#[derive(Debug, Clone, Copy, PartialEq, Eq, Hash, Structural)]
pub enum TargetKind {
    /// Render a profile dashboard.
    Profile,
    /// Render an open-source repository dashboard.
    OpenSource,
    /// Render a private repository dashboard.
    PrivateProject,
}

impl TargetKind {
    /// The kind that a tag of a configuration document names.
    pub open spec fn of_tag(tag: Seq<char>) -> Option<TargetKind> {
        if tag == "profile"@ {
            Some(TargetKind::Profile)
        } else if tag == "open_source"@ {
            Some(TargetKind::OpenSource)
        } else if tag == "private_project"@ {
            Some(TargetKind::PrivateProject)
        } else {
            None
        }
    }

    /// The tag that names this kind in a configuration document.
    pub open spec fn tag(self) -> Seq<char> {
        match self {
            TargetKind::Profile => "profile"@,
            TargetKind::OpenSource => "open_source"@,
            TargetKind::PrivateProject => "private_project"@,
        }
    }

    /// Decodes the tag of a configuration entry. Exactly the three named
    /// tags decode; any other text is rejected.
    pub fn from_tag(tag: &str) -> (r: Option<TargetKind>)
        ensures
            r == TargetKind::of_tag(tag@),
    {
        if text_eq(tag, "profile") {
            Some(TargetKind::Profile)
        } else if text_eq(tag, "open_source") {
            Some(TargetKind::OpenSource)
        } else if text_eq(tag, "private_project") {
            Some(TargetKind::PrivateProject)
        } else {
            None
        }
    }

    /// The tag written for this kind.
    pub fn as_tag(self) -> (r: &'static str)
        ensures
            r@ == self.tag(),
            TargetKind::of_tag(r@) == Some(self),
    {
        proof {
            tags_differ();
        }
        match self {
            TargetKind::Profile => "profile",
            TargetKind::OpenSource => "open_source",
            TargetKind::PrivateProject => "private_project",
        }
    }
}

proof fn tags_differ()
    ensures
        "profile"@ != "open_source"@,
        "profile"@ != "private_project"@,
        "open_source"@ != "private_project"@,
{
    reveal_strlit("profile");
    reveal_strlit("open_source");
    reveal_strlit("private_project");
    assert("profile"@.len() == 7);
    assert("open_source"@.len() == 11);
    assert("private_project"@.len() == 15);
}

/// Every kind is decoded from the tag written for it.
pub proof fn kind_tag_round_trip(kind: TargetKind)
    ensures
        TargetKind::of_tag(kind.tag()) == Some(kind),
{
    tags_differ();
}

/// Visual themes supported by the badge renderer.
#[derive(Debug, Clone, Copy, PartialEq, Eq, Hash, Structural)]
pub enum BadgeStyle {
    /// The default gradient.
    Classic,
    /// A flat appearance.
    Flat,
    /// The flat-square preset.
    FlatSquare,
    /// The plastic preset.
    Plastic,
    /// The "for-the-badge" preset with uppercase text.
    ForTheBadge,
}

/// Horizontal alignment presets supported by the badge widget.
#[derive(Debug, Clone, Copy, PartialEq, Eq, Hash, Structural)]
pub enum BadgeWidgetAlignment {
    /// Align contents to the leading edge of the widget.
    Start,
    /// Center the contents within the widget.
    Center,
    /// Align contents to the trailing edge of the widget.
    End,
}

impl BadgeStyle {
    /// The style that a tag of a configuration document names.
    pub open spec fn of_tag(tag: Seq<char>) -> Option<BadgeStyle> {
        if tag == "classic"@ {
            Some(BadgeStyle::Classic)
        } else if tag == "flat"@ {
            Some(BadgeStyle::Flat)
        } else if tag == "flat_square"@ {
            Some(BadgeStyle::FlatSquare)
        } else if tag == "plastic"@ {
            Some(BadgeStyle::Plastic)
        } else if tag == "for_the_badge"@ {
            Some(BadgeStyle::ForTheBadge)
        } else {
            None
        }
    }

    /// The tag that names this style in a configuration document.
    pub open spec fn tag(self) -> Seq<char> {
        match self {
            BadgeStyle::Classic => "classic"@,
            BadgeStyle::Flat => "flat"@,
            BadgeStyle::FlatSquare => "flat_square"@,
            BadgeStyle::Plastic => "plastic"@,
            BadgeStyle::ForTheBadge => "for_the_badge"@,
        }
    }

    /// Decodes the tag of a badge style. Exactly the five named presets
    /// decode.
    pub fn from_tag(tag: &str) -> (r: Option<BadgeStyle>)
        ensures
            r == BadgeStyle::of_tag(tag@),
    {
        if text_eq(tag, "classic") {
            Some(BadgeStyle::Classic)
        } else if text_eq(tag, "flat") {
            Some(BadgeStyle::Flat)
        } else if text_eq(tag, "flat_square") {
            Some(BadgeStyle::FlatSquare)
        } else if text_eq(tag, "plastic") {
            Some(BadgeStyle::Plastic)
        } else if text_eq(tag, "for_the_badge") {
            Some(BadgeStyle::ForTheBadge)
        } else {
            None
        }
    }

    /// The tag written for this style.
    pub fn as_tag(self) -> (r: &'static str)
        ensures
            r@ == self.tag(),
            BadgeStyle::of_tag(r@) == Some(self),
    {
        proof {
            style_tags_differ();
        }
        match self {
            BadgeStyle::Classic => "classic",
            BadgeStyle::Flat => "flat",
            BadgeStyle::FlatSquare => "flat_square",
            BadgeStyle::Plastic => "plastic",
            BadgeStyle::ForTheBadge => "for_the_badge",
        }
    }
}

proof fn style_tags_differ()
    ensures
        "classic"@.len() == 7,
        "flat"@.len() == 4,
        "flat_square"@.len() == 11,
        "plastic"@.len() == 7,
        "for_the_badge"@.len() == 13,
        "classic"@ != "plastic"@,
{
    reveal_strlit("classic");
    reveal_strlit("flat");
    reveal_strlit("flat_square");
    reveal_strlit("plastic");
    reveal_strlit("for_the_badge");
    assert("classic"@[0] == 'c');
    assert("plastic"@[0] == 'p');
}

impl BadgeWidgetAlignment {
    /// The alignment that a tag of a configuration document names.
    pub open spec fn of_tag(tag: Seq<char>) -> Option<BadgeWidgetAlignment> {
        if tag == "start"@ {
            Some(BadgeWidgetAlignment::Start)
        } else if tag == "center"@ {
            Some(BadgeWidgetAlignment::Center)
        } else if tag == "end"@ {
            Some(BadgeWidgetAlignment::End)
        } else {
            None
        }
    }

    /// The tag that names this alignment in a configuration document.
    pub open spec fn tag(self) -> Seq<char> {
        match self {
            BadgeWidgetAlignment::Start => "start"@,
            BadgeWidgetAlignment::Center => "center"@,
            BadgeWidgetAlignment::End => "end"@,
        }
    }

    /// Decodes the tag of an alignment. Exactly the three named presets
    /// decode.
    pub fn from_tag(tag: &str) -> (r: Option<BadgeWidgetAlignment>)
        ensures
            r == BadgeWidgetAlignment::of_tag(tag@),
    {
        if text_eq(tag, "start") {
            Some(BadgeWidgetAlignment::Start)
        } else if text_eq(tag, "center") {
            Some(BadgeWidgetAlignment::Center)
        } else if text_eq(tag, "end") {
            Some(BadgeWidgetAlignment::End)
        } else {
            None
        }
    }

    /// The tag written for this alignment.
    pub fn as_tag(self) -> (r: &'static str)
        ensures
            r@ == self.tag(),
            BadgeWidgetAlignment::of_tag(r@) == Some(self),
    {
        proof {
            reveal_strlit("start");
            reveal_strlit("center");
            reveal_strlit("end");
            assert("start"@.len() == 5);
            assert("center"@.len() == 6);
            assert("end"@.len() == 3);
        }
        match self {
            BadgeWidgetAlignment::Start => "start",
            BadgeWidgetAlignment::Center => "center",
            BadgeWidgetAlignment::End => "end",
        }
    }
}

/// The message for a tag that names none of the expected variants.
pub open spec fn unknown_variant_message(tag: Seq<char>, expected: Seq<char>) -> Seq<char> {
    "unknown variant `"@ + tag + "`, expected one of "@ + expected
}

/// Builds the message for a tag that names none of the expected variants.
fn unknown_variant(tag: &str, expected: &str) -> (r: String)
    ensures
        r@ == unknown_variant_message(tag@, expected@),
{
    String::from_str("unknown variant `").concat(tag).concat("`, expected one of ").concat(expected)
}

/// Decodes the kind of a configuration entry. A tag that names none of the
/// three kinds fails decoding with a message that names the tag and the
/// kinds.
pub fn decode_kind(tag: &str) -> (r: Result<TargetKind, String>)
    ensures
        match r {
            Ok(kind) => TargetKind::of_tag(tag@) == Some(kind),
            Err(message) => TargetKind::of_tag(tag@) is None && message@ == unknown_variant_message(
                tag@,
                "`profile`, `open_source`, `private_project`"@,
            ),
        },
{
    match TargetKind::from_tag(tag) {
        Some(kind) => Ok(kind),
        None => Err(unknown_variant(tag, "`profile`, `open_source`, `private_project`")),
    }
}

/// Decodes the style of a badge. A tag that names none of the five presets
/// fails decoding with a message that names the tag and the presets.
pub fn decode_style(tag: &str) -> (r: Result<BadgeStyle, String>)
    ensures
        match r {
            Ok(style) => BadgeStyle::of_tag(tag@) == Some(style),
            Err(message) => BadgeStyle::of_tag(tag@) is None && message@ == unknown_variant_message(
                tag@,
                "`classic`, `flat`, `flat_square`, `plastic`, `for_the_badge`"@,
            ),
        },
{
    match BadgeStyle::from_tag(tag) {
        Some(style) => Ok(style),
        None => Err(
            unknown_variant(tag, "`classic`, `flat`, `flat_square`, `plastic`, `for_the_badge`"),
        ),
    }
}

/// Decodes the alignment of a badge widget. A tag that names none of the
/// three presets fails decoding with a message that names the tag and the
/// presets.
pub fn decode_alignment(tag: &str) -> (r: Result<BadgeWidgetAlignment, String>)
    ensures
        match r {
            Ok(alignment) => BadgeWidgetAlignment::of_tag(tag@) == Some(alignment),
            Err(message) => BadgeWidgetAlignment::of_tag(tag@) is None && message@
                == unknown_variant_message(tag@, "`start`, `center`, `end`"@),
        },
{
    match BadgeWidgetAlignment::from_tag(tag) {
        Some(alignment) => Ok(alignment),
        None => Err(unknown_variant(tag, "`start`, `center`, `end`")),
    }
}

/// Layout customization options for the badge widget.
#[derive(Debug, Clone, Default)]
pub struct BadgeWidgetOptions {
    /// Optional number of columns, constrained to the range `1..=4`.
    pub columns: Option<u8>,
    /// Optional alignment applied to the widget contents.
    pub alignment: Option<BadgeWidgetAlignment>,
    /// Optional border radius, constrained to the range `0..=32` pixels.
    pub border_radius: Option<u8>,
}

/// Badge customization entry of a configuration document.
#[derive(Debug, Clone, Default)]
pub struct BadgeOptions {
    /// Optional visual style preset applied to the badge.
    pub style: Option<BadgeStyle>,
    /// Optional widget layout overrides.
    pub widget: Option<BadgeWidgetOptions>,
}

/// Whether a number of badge columns is within `1..=4`.
pub open spec fn columns_in_range(value: u8) -> bool {
    1 <= value <= 4
}

/// Whether a badge border radius is within `0..=32`.
pub open spec fn border_radius_in_range(value: u8) -> bool {
    value <= 32
}

/// The message for a number of columns out of range.
pub open spec fn columns_message() -> Seq<char> {
    "badge.widget.columns must be between 1 and 4"@
}

/// The message for a border radius out of range.
pub open spec fn border_radius_message() -> Seq<char> {
    "badge.widget.border_radius must not exceed 32"@
}

/// Decode check of the optional number of badge columns: an absent value and
/// a value within `1..=4` pass unchanged, any other value fails decoding with
/// a message that names the field and the range.
pub fn deserialize_optional_columns(value: Option<u8>) -> (r: Result<Option<u8>, String>)
    ensures
        match r {
            Ok(kept) => kept == value && (value matches Some(columns) ==> columns_in_range(
                columns,
            )),
            Err(message) => message@ == columns_message() && (value matches Some(columns)
                && !columns_in_range(columns)),
        },
{
    if let Some(columns) = value {
        if columns == 0 || columns > 4 {
            return Err(String::from_str("badge.widget.columns must be between 1 and 4"));
        }
    }
    Ok(value)
}

/// Decode check of the optional badge border radius: an absent value and a
/// value within `0..=32` pass unchanged, any other value fails decoding with
/// a message that names the field and the limit.
pub fn deserialize_optional_border_radius(value: Option<u8>) -> (r: Result<Option<u8>, String>)
    ensures
        match r {
            Ok(kept) => kept == value && (value matches Some(radius)
                ==> border_radius_in_range(radius)),
            Err(message) => message@ == border_radius_message() && (value matches Some(radius)
                && !border_radius_in_range(radius)),
        },
{
    if let Some(radius) = value {
        if radius > 32 {
            return Err(String::from_str("badge.widget.border_radius must not exceed 32"));
        }
    }
    Ok(value)
}

/// Raw configuration entry describing a single metrics target before
/// normalization.
#[derive(Debug, Clone)]
pub struct TargetEntry {
    /// Account that owns the repository or profile.
    pub owner: String,
    /// Optional repository name associated with the target.
    pub repository: Option<String>,
    /// Logical target type that influences renderer presets.
    pub target_type: TargetKind,
    /// Optional slug override used for filenames and branch names.
    pub slug: Option<String>,
    /// Optional branch name override for commits with refreshed metrics.
    pub branch_name: Option<String>,
    /// Optional branch name analyzed by the contributors plugin.
    pub contributors_branch: Option<String>,
    /// Optional destination path override for the generated SVG artifact.
    pub target_path: Option<String>,
    /// Optional temporary artifact override produced by the renderer.
    pub temp_artifact: Option<String>,
    /// Optional timezone override for renderer inputs.
    pub time_zone: Option<String>,
    /// Optional display name override used in commit messages.
    pub display_name: Option<String>,
    /// Optional flag that enables private repository insights.
    pub include_private: Option<bool>,
    /// Optional badge customization applied to the generated widget preview.
    pub badge: Option<BadgeOptions>,
}

/// What a [`TargetEntry`] holds, as plain text and values.
pub struct TargetEntryView {
    pub owner: Seq<char>,
    pub repository: Option<Seq<char>>,
    pub target_type: TargetKind,
    pub slug: Option<Seq<char>>,
    pub branch_name: Option<Seq<char>>,
    pub contributors_branch: Option<Seq<char>>,
    pub target_path: Option<Seq<char>>,
    pub temp_artifact: Option<Seq<char>>,
    pub time_zone: Option<Seq<char>>,
    pub display_name: Option<Seq<char>>,
    pub include_private: Option<bool>,
    pub badge: Option<BadgeOptions>,
}

impl View for TargetEntry {
    type V = TargetEntryView;

    open spec fn view(&self) -> TargetEntryView {
        TargetEntryView {
            owner: self.owner@,
            repository: text_view(self.repository),
            target_type: self.target_type,
            slug: text_view(self.slug),
            branch_name: text_view(self.branch_name),
            contributors_branch: text_view(self.contributors_branch),
            target_path: text_view(self.target_path),
            temp_artifact: text_view(self.temp_artifact),
            time_zone: text_view(self.time_zone),
            display_name: text_view(self.display_name),
            include_private: self.include_private,
            badge: self.badge,
        }
    }
}

impl TargetEntryView {
    /// The slug of the entry: the slug derived from the custom override where
    /// one is present, else from `"{owner}-profile"` for a profile and from
    /// the repository name for a repository.
    pub open spec fn resolved_slug(self) -> Option<Seq<char>> {
        match self.slug {
            Some(custom) => derive_slug(custom),
            None => match self.target_type {
                TargetKind::Profile => derive_slug(self.owner + "-profile"@),
                TargetKind::OpenSource | TargetKind::PrivateProject => match self.repository {
                    Some(name) => derive_slug(name),
                    None => None,
                },
            },
        }
    }

    /// The display name used when no override is in force: `"profile"` for a
    /// profile, the trimmed repository name for a repository.
    pub open spec fn default_display_name(self) -> Option<Seq<char>> {
        match self.target_type {
            TargetKind::Profile => Some("profile"@),
            TargetKind::OpenSource | TargetKind::PrivateProject => match self.repository {
                Some(name) => Some(trim(name)),
                None => None,
            },
        }
    }

    /// The display name of the entry: the trimmed override where one is
    /// present and not blank, else the default. A blank override counts as
    /// absent.
    pub open spec fn resolved_display_name(self) -> Option<Seq<char>> {
        match self.display_name {
            Some(name) => if is_blank(name) {
                self.default_display_name()
            } else {
                Some(trim(name))
            },
            None => self.default_display_name(),
        }
    }
}

impl TargetEntry {
    /// Returns the slug that should be used for this target, or `None` where
    /// none can be derived.
    pub fn resolved_slug(&self) -> (r: Option<String>)
        ensures
            text_view(r) == self@.resolved_slug(),
    {
        match &self.slug {
            Some(custom) => SlugStrategy::builder(custom.as_str()).build(),
            None => match self.target_type {
                TargetKind::Profile => {
                    let derived = self.owner.clone().concat("-profile");
                    SlugStrategy::builder(derived.as_str()).build()
                },
                TargetKind::OpenSource | TargetKind::PrivateProject => match &self.repository {
                    Some(name) => SlugStrategy::builder(name.as_str()).build(),
                    None => None,
                },
            },
        }
    }

    /// Provides the display name used for commit messages and logging, or
    /// `None` where a repository target has no repository.
    pub fn resolved_display_name(&self) -> (r: Option<String>)
        ensures
            text_view(r) == self@.resolved_display_name(),
    {
        if let Some(name) = &self.display_name {
            let chars = to_chars(name.as_str());
            let (start, end) = trim_bounds(&chars);
            if start < end {
                return Some(to_text(&chars, start, end));
            }
        }
        match self.target_type {
            TargetKind::Profile => Some(String::from_str("profile")),
            TargetKind::OpenSource | TargetKind::PrivateProject => match &self.repository {
                Some(name) => Some(trimmed(name.as_str())),
                None => None,
            },
        }
    }
}

/// Root configuration document describing all targets that should be rendered.
#[derive(Debug)]
pub struct TargetConfig {
    /// Collection of metrics targets to render.
    pub targets: Vec<TargetEntry>,
}

} // verus!
