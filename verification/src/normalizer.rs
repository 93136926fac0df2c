//! Transformation of raw configuration entries into normalized render
//! targets.
//!
//! Every derived value follows a fixed rule, and a document is accepted only
//! when no two of its targets share a slug, a target path, a temporary
//! artifact or a branch name.

use vstd::prelude::*;
use vstd::string::StringExecFns;
use crate::config::{
    border_radius_in_range, border_radius_message, columns_in_range, columns_message, BadgeOptions,
    BadgeStyle, BadgeWidgetAlignment, TargetEntry, TargetEntryView, TargetKind,
};
use crate::error::Error;
use crate::text::{
    chars_have_whitespace, has_whitespace, is_blank, text_eq, text_view, to_chars, to_text, trim,
    trim_bounds,
};

verus! {

/// Normalized widget parameters derived from configuration overrides.
#[derive(Debug, Clone, PartialEq, Eq)]
pub struct BadgeWidgetDescriptor {
    /// Number of columns used to arrange badge content.
    pub columns: u8,
    /// Alignment applied to the badge content.
    pub alignment: BadgeWidgetAlignment,
    /// Corner radius applied to the badge in pixels.
    pub border_radius: u8,
}

/// Normalized badge descriptor emitted alongside render targets.
#[derive(Debug, Clone, PartialEq, Eq)]
pub struct BadgeDescriptor {
    /// Visual style preset selected for the badge.
    pub style: BadgeStyle,
    /// Normalized widget options that control layout.
    pub widget: BadgeWidgetDescriptor,
}

/// Normalized representation of a metrics target used by automation
/// workflows.
#[derive(Debug, Clone, PartialEq, Eq)]
pub struct RenderTarget {
    /// Unique slug derived from the configuration entry.
    pub slug: String,
    /// Account that owns the repository or profile.
    pub owner: String,
    /// Optional repository associated with the target.
    pub repository: Option<String>,
    /// Target category.
    pub kind: TargetKind,
    /// Branch name used for storing refreshed metrics commits.
    pub branch_name: String,
    /// Final destination path for the generated SVG artifact.
    pub target_path: String,
    /// Temporary artifact produced by the metrics renderer.
    pub temp_artifact: String,
    /// Time zone passed to the renderer.
    pub time_zone: String,
    /// Display name used in commit messages and logs.
    pub display_name: String,
    /// Branch analyzed by the contributors plugin.
    pub contributors_branch: String,
    /// Whether the renderer should include private repositories.
    pub include_private: bool,
    /// Normalized badge descriptor associated with the target.
    pub badge: BadgeDescriptor,
}

/// What a [`RenderTarget`] holds, as plain text and values.
pub struct RenderTargetView {
    pub slug: Seq<char>,
    pub owner: Seq<char>,
    pub repository: Option<Seq<char>>,
    pub kind: TargetKind,
    pub branch_name: Seq<char>,
    pub target_path: Seq<char>,
    pub temp_artifact: Seq<char>,
    pub time_zone: Seq<char>,
    pub display_name: Seq<char>,
    pub contributors_branch: Seq<char>,
    pub include_private: bool,
    pub badge: BadgeDescriptor,
}

impl View for RenderTarget {
    type V = RenderTargetView;

    open spec fn view(&self) -> RenderTargetView {
        RenderTargetView {
            slug: self.slug@,
            owner: self.owner@,
            repository: text_view(self.repository),
            kind: self.kind,
            branch_name: self.branch_name@,
            target_path: self.target_path@,
            temp_artifact: self.temp_artifact@,
            time_zone: self.time_zone@,
            display_name: self.display_name@,
            contributors_branch: self.contributors_branch@,
            include_private: self.include_private,
            badge: self.badge,
        }
    }
}

/// The views of a sequence of targets.
pub open spec fn target_views(targets: Seq<RenderTarget>) -> Seq<RenderTargetView> {
    Seq::new(targets.len(), |k: int| targets[k]@)
}

/// The views of a sequence of entries.
pub open spec fn entry_views(entries: Seq<TargetEntry>) -> Seq<TargetEntryView> {
    Seq::new(entries.len(), |k: int| entries[k]@)
}

/// Document containing all normalized targets.
#[derive(Debug, Clone, PartialEq, Eq)]
pub struct TargetsDocument {
    /// Aggregated targets derived from the configuration.
    pub targets: Vec<RenderTarget>,
}

impl View for TargetsDocument {
    type V = Seq<RenderTargetView>;

    open spec fn view(&self) -> Seq<RenderTargetView> {
        target_views(self.targets@)
    }
}

/// The four identifiers that no two targets of a document may share, in the
/// order in which a document is checked for them.
#[derive(Debug, Clone, Copy, PartialEq, Eq, Structural)]
pub enum IdentifierField {
    /// The slug.
    Slug,
    /// The destination path of the artifact.
    TargetPath,
    /// The temporary artifact.
    TempArtifact,
    /// The branch that receives the refreshed metrics.
    BranchName,
}

impl IdentifierField {
    /// The name of the field in messages.
    pub open spec fn name(self) -> Seq<char> {
        match self {
            IdentifierField::Slug => "slug"@,
            IdentifierField::TargetPath => "target_path"@,
            IdentifierField::TempArtifact => "temp_artifact"@,
            IdentifierField::BranchName => "branch_name"@,
        }
    }

    /// The place of the field in the order of checks.
    pub open spec fn rank(self) -> int {
        match self {
            IdentifierField::Slug => 0,
            IdentifierField::TargetPath => 1,
            IdentifierField::TempArtifact => 2,
            IdentifierField::BranchName => 3,
        }
    }

    /// The value of the field in a target.
    pub open spec fn of(self, target: RenderTargetView) -> Seq<char> {
        match self {
            IdentifierField::Slug => target.slug,
            IdentifierField::TargetPath => target.target_path,
            IdentifierField::TempArtifact => target.temp_artifact,
            IdentifierField::BranchName => target.branch_name,
        }
    }

    /// The values of the field in a sequence of targets.
    pub open spec fn values(self, targets: Seq<RenderTargetView>) -> Seq<Seq<char>> {
        Seq::new(targets.len(), |k: int| self.of(targets[k]))
    }

    /// The name of the field in messages.
    pub fn label(self) -> (r: &'static str)
        ensures
            r@ == self.name(),
    {
        match self {
            IdentifierField::Slug => "slug",
            IdentifierField::TargetPath => "target_path",
            IdentifierField::TempArtifact => "temp_artifact",
            IdentifierField::BranchName => "branch_name",
        }
    }
}

/// The default time zone of the renderer.
pub open spec fn default_time_zone() -> Seq<char> {
    "Asia/Ho_Chi_Minh"@
}

/// The default branch analyzed for contributors.
pub open spec fn default_contributors_branch() -> Seq<char> {
    "main"@
}

/// The account whose profile includes private repositories by default.
pub open spec fn reserved_owner() -> Seq<char> {
    "RAprogramm"@
}

/// The default branch of a target: `ci/metrics-refresh-{slug}`.
pub open spec fn default_branch_name(slug: Seq<char>) -> Seq<char> {
    "ci/metrics-refresh-"@ + slug
}

/// The default destination of a target: `metrics/{slug}.svg`.
pub open spec fn default_target_path(slug: Seq<char>) -> Seq<char> {
    "metrics/"@ + slug + ".svg"@
}

/// The default staging file of a target: `.metrics-tmp/{slug}.svg`.
pub open spec fn default_temp_artifact(slug: Seq<char>) -> Seq<char> {
    ".metrics-tmp/"@ + slug + ".svg"@
}

/// The rule for identifiers such as owners and repositories: the trimmed
/// input, which must be neither empty nor hold whitespace. The error is the
/// message of the violated rule.
pub open spec fn identifier_rule(input: Seq<char>, field: Seq<char>) -> Result<
    Seq<char>,
    Seq<char>,
> {
    let value = trim(input);
    if value.len() == 0 {
        Err(field + " cannot be empty"@)
    } else if has_whitespace(value) {
        Err(field + " cannot contain whitespace"@)
    } else {
        Ok(value)
    }
}

/// The rule for path-like overrides: the trimmed input, which must not be
/// empty.
pub open spec fn path_like_rule(input: Seq<char>, field: Seq<char>) -> Result<
    Seq<char>,
    Seq<char>,
> {
    let value = trim(input);
    if value.len() == 0 {
        Err(field + " override cannot be empty"@)
    } else {
        Ok(value)
    }
}

/// An override under the path-like rule where one is present, else the
/// default.
pub open spec fn override_rule(
    custom: Option<Seq<char>>,
    field: Seq<char>,
    default: Seq<char>,
) -> Result<Seq<char>, Seq<char>> {
    match custom {
        Some(value) => path_like_rule(value, field),
        None => Ok(default),
    }
}

/// The repository of a target: none for a profile; for a repository kind the
/// entry's repository under the identifier rule, which must be present.
pub open spec fn repository_rule(entry: TargetEntryView) -> Result<Option<Seq<char>>, Seq<char>> {
    match entry.target_type {
        TargetKind::Profile => Ok(None),
        TargetKind::OpenSource | TargetKind::PrivateProject => match entry.repository {
            None => Err("repository is required for repository targets"@),
            Some(name) => match identifier_rule(name, "repository"@) {
                Ok(value) => Ok(Some(value)),
                Err(message) => Err(message),
            },
        },
    }
}

/// The time zone of a target: the trimmed override where one is present and
/// not blank, else the default.
pub open spec fn time_zone_rule(custom: Option<Seq<char>>) -> Seq<char> {
    match custom {
        Some(value) => if is_blank(value) {
            default_time_zone()
        } else {
            trim(value)
        },
        None => default_time_zone(),
    }
}

/// The contributors branch of a target: the override under the identifier
/// rule where one is present, else the default.
pub open spec fn contributors_branch_rule(custom: Option<Seq<char>>) -> Result<
    Seq<char>,
    Seq<char>,
> {
    match custom {
        Some(value) => identifier_rule(value, "contributors_branch"@),
        None => Ok(default_contributors_branch()),
    }
}

/// Whether private repositories are included where the entry does not say:
/// only for the profile of the reserved account.
pub open spec fn include_private_default(owner: Seq<char>, kind: TargetKind) -> bool {
    kind == TargetKind::Profile && owner == reserved_owner()
}

/// The badge of a target: each absent value takes its default, then the
/// number of columns and the border radius must be in range.
pub open spec fn badge_rule(badge: Option<BadgeOptions>) -> Result<BadgeDescriptor, Seq<char>> {
    let style = match badge {
        Some(BadgeOptions { style: Some(style), .. }) => style,
        _ => BadgeStyle::Classic,
    };
    let columns = match badge {
        Some(BadgeOptions { widget: Some(widget), .. }) => match widget.columns {
            Some(columns) => columns,
            None => 1u8,
        },
        _ => 1u8,
    };
    let alignment = match badge {
        Some(BadgeOptions { widget: Some(widget), .. }) => match widget.alignment {
            Some(alignment) => alignment,
            None => BadgeWidgetAlignment::Start,
        },
        _ => BadgeWidgetAlignment::Start,
    };
    let border_radius = match badge {
        Some(BadgeOptions { widget: Some(widget), .. }) => match widget.border_radius {
            Some(radius) => radius,
            None => 4u8,
        },
        _ => 4u8,
    };
    if !columns_in_range(columns) {
        Err(columns_message())
    } else if !border_radius_in_range(border_radius) {
        Err(border_radius_message())
    } else {
        Ok(BadgeDescriptor { style, widget: BadgeWidgetDescriptor { columns, alignment, border_radius } })
    }
}

/// The render target of an entry, or the message of the first rule that the
/// entry violates. The rules are applied in this order: owner, repository,
/// slug, branch name, target path, temporary artifact, time zone, display
/// name, contributors branch, private repositories, badge.
pub open spec fn normalized_entry(entry: TargetEntryView) -> Result<RenderTargetView, Seq<char>> {
    match identifier_rule(entry.owner, "owner"@) {
        Err(message) => Err(message),
        Ok(owner) => match repository_rule(entry) {
            Err(message) => Err(message),
            Ok(repository) => match entry.resolved_slug() {
                None => Err("unable to derive slug for target"@),
                Some(slug) => match override_rule(
                    entry.branch_name,
                    "branch_name"@,
                    default_branch_name(slug),
                ) {
                    Err(message) => Err(message),
                    Ok(branch_name) => match override_rule(
                        entry.target_path,
                        "target_path"@,
                        default_target_path(slug),
                    ) {
                        Err(message) => Err(message),
                        Ok(target_path) => match override_rule(
                            entry.temp_artifact,
                            "temp_artifact"@,
                            default_temp_artifact(slug),
                        ) {
                            Err(message) => Err(message),
                            Ok(temp_artifact) => match entry.resolved_display_name() {
                                None => Err("unable to derive display name for target"@),
                                Some(display_name) => match contributors_branch_rule(
                                    entry.contributors_branch,
                                ) {
                                    Err(message) => Err(message),
                                    Ok(contributors_branch) => match badge_rule(entry.badge) {
                                        Err(message) => Err(message),
                                        Ok(badge) => Ok(
                                            RenderTargetView {
                                                slug,
                                                owner,
                                                repository,
                                                kind: entry.target_type,
                                                branch_name,
                                                target_path,
                                                temp_artifact,
                                                time_zone: time_zone_rule(entry.time_zone),
                                                display_name,
                                                contributors_branch,
                                                include_private: match entry.include_private {
                                                    Some(flag) => flag,
                                                    None => include_private_default(
                                                        owner,
                                                        entry.target_type,
                                                    ),
                                                },
                                                badge,
                                            },
                                        ),
                                    },
                                },
                            },
                        },
                    },
                },
            },
        },
    }
}

/// The first identifier, in the order of checks, that `target` shares with
/// one of the targets before it.
pub open spec fn collision(prior: Seq<RenderTargetView>, target: RenderTargetView) -> Option<
    IdentifierField,
> {
    if IdentifierField::Slug.values(prior).contains(target.slug) {
        Some(IdentifierField::Slug)
    } else if IdentifierField::TargetPath.values(prior).contains(target.target_path) {
        Some(IdentifierField::TargetPath)
    } else if IdentifierField::TempArtifact.values(prior).contains(target.temp_artifact) {
        Some(IdentifierField::TempArtifact)
    } else if IdentifierField::BranchName.values(prior).contains(target.branch_name) {
        Some(IdentifierField::BranchName)
    } else {
        None
    }
}

/// The message for an identifier that two targets share.
pub open spec fn duplicate_message(field: IdentifierField, value: Seq<char>) -> Seq<char> {
    "duplicate "@ + field.name() + " '"@ + value + "'"@
}

/// The document of a sequence of entries: the render targets of the entries
/// in their order, or the message of the first failure. Entries are taken in
/// order; an entry fails where it violates a rule of its own or, failing
/// that, where it shares an identifier with an entry before it.
pub open spec fn normalized_targets(entries: Seq<TargetEntryView>) -> Result<
    Seq<RenderTargetView>,
    Seq<char>,
>
    decreases entries.len(),
{
    if entries.len() == 0 {
        Ok(Seq::empty())
    } else {
        match normalized_targets(entries.drop_last()) {
            Err(message) => Err(message),
            Ok(prior) => match normalized_entry(entries.last()) {
                Err(message) => Err(message),
                Ok(target) => match collision(prior, target) {
                    Some(field) => Err(duplicate_message(field, field.of(target))),
                    None => Ok(prior.push(target)),
                },
            },
        }
    }
}

/// No two targets share a slug, a target path, a temporary artifact or a
/// branch name.
pub open spec fn identifiers_unique(targets: Seq<RenderTargetView>) -> bool {
    &&& IdentifierField::Slug.values(targets).no_duplicates()
    &&& IdentifierField::TargetPath.values(targets).no_duplicates()
    &&& IdentifierField::TempArtifact.values(targets).no_duplicates()
    &&& IdentifierField::BranchName.values(targets).no_duplicates()
}

/// Whether a text result is what a rule gives: the value on success, a
/// validation error with the rule's message on failure.
pub open spec fn text_outcome(r: Result<String, Error>, rule: Result<Seq<char>, Seq<char>>) -> bool {
    match r {
        Ok(value) => rule == Ok::<Seq<char>, Seq<char>>(value@),
        Err(error) => rule matches Err(message) && error.is_validation(message),
    }
}

/// A validation error whose message is `lead` followed by `tail`.
fn validation_of(lead: &str, tail: &str) -> (r: Error)
    ensures
        r.is_validation(lead@ + tail@),
{
    Error::Validation { message: String::from_str(lead).concat(tail) }
}

/// Validates identifier-like fields such as owners or repositories: the
/// input is trimmed and must then be neither empty nor hold whitespace.
pub fn normalize_identifier(input: &str, field: &str) -> (r: Result<String, Error>)
    ensures
        text_outcome(r, identifier_rule(input@, field@)),
{
    let chars = to_chars(input);
    let (start, end) = trim_bounds(&chars);
    if start == end {
        return Err(validation_of(field, " cannot be empty"));
    }
    let value = to_text(&chars, start, end);
    let kept = to_chars(value.as_str());
    if chars_have_whitespace(&kept) {
        return Err(validation_of(field, " cannot contain whitespace"));
    }
    Ok(value)
}

/// Validates path-like overrides: the input is trimmed and must then not be
/// empty.
pub fn normalize_path_like(input: &str, field: &str) -> (r: Result<String, Error>)
    ensures
        text_outcome(r, path_like_rule(input@, field@)),
{
    let chars = to_chars(input);
    let (start, end) = trim_bounds(&chars);
    if start == end {
        return Err(validation_of(field, " override cannot be empty"));
    }
    Ok(to_text(&chars, start, end))
}

/// Whether private repositories are included where the entry does not say.
pub fn default_include_private(owner: &str, kind: TargetKind) -> (r: bool)
    ensures
        r == include_private_default(owner@, kind),
{
    match kind {
        TargetKind::Profile => text_eq(owner, "RAprogramm"),
        TargetKind::OpenSource | TargetKind::PrivateProject => false,
    }
}

/// Checks a number of badge columns against `1..=4`.
pub fn validate_badge_columns(value: u8) -> (r: Result<u8, Error>)
    ensures
        match r {
            Ok(kept) => kept == value && columns_in_range(value),
            Err(error) => !columns_in_range(value) && error.is_validation(columns_message()),
        },
{
    if value == 0 || value > 4 {
        return Err(Error::validation("badge.widget.columns must be between 1 and 4"));
    }
    Ok(value)
}

/// Checks a badge border radius against `0..=32`.
pub fn validate_badge_border_radius(value: u8) -> (r: Result<u8, Error>)
    ensures
        match r {
            Ok(kept) => kept == value && border_radius_in_range(value),
            Err(error) => !border_radius_in_range(value) && error.is_validation(
                border_radius_message(),
            ),
        },
{
    if value > 32 {
        return Err(Error::validation("badge.widget.border_radius must not exceed 32"));
    }
    Ok(value)
}

/// The badge options behind an optional reference.
pub open spec fn badge_options(badge: Option<&BadgeOptions>) -> Option<BadgeOptions> {
    match badge {
        Some(options) => Some(*options),
        None => None,
    }
}

/// Resolves the badge descriptor of a target: absent values take their
/// defaults, and the number of columns and the border radius are checked
/// against their ranges.
pub fn normalize_badge(badge: Option<&BadgeOptions>) -> (r: Result<BadgeDescriptor, Error>)
    ensures
        match r {
            Ok(descriptor) => badge_rule(badge_options(badge)) == Ok::<BadgeDescriptor, Seq<char>>(
                descriptor,
            ),
            Err(error) => badge_rule(badge_options(badge)) matches Err(message)
                && error.is_validation(message),
        },
{
    let mut style = BadgeStyle::Classic;
    let mut columns_value: u8 = 1;
    let mut alignment = BadgeWidgetAlignment::Start;
    let mut border_radius_value: u8 = 4;
    if let Some(options) = badge {
        if let Some(chosen) = options.style {
            style = chosen;
        }
        if let Some(widget) = &options.widget {
            if let Some(columns) = widget.columns {
                columns_value = columns;
            }
            if let Some(chosen) = widget.alignment {
                alignment = chosen;
            }
            if let Some(radius) = widget.border_radius {
                border_radius_value = radius;
            }
        }
    }
    let columns = match validate_badge_columns(columns_value) {
        Ok(columns) => columns,
        Err(error) => {
            return Err(error);
        },
    };
    let border_radius = match validate_badge_border_radius(border_radius_value) {
        Ok(radius) => radius,
        Err(error) => {
            return Err(error);
        },
    };
    Ok(BadgeDescriptor { style, widget: BadgeWidgetDescriptor { columns, alignment, border_radius } })
}

/// An override under the path-like rule where one is present, else the
/// default made of `lead`, the slug and `tail`.
fn resolve_override(custom: &Option<String>, field: &str, lead: &str, slug: &str, tail: &str) -> (r:
    Result<String, Error>)
    ensures
        text_outcome(r, override_rule(text_view(*custom), field@, lead@ + slug@ + tail@)),
{
    match custom {
        Some(value) => normalize_path_like(value.as_str(), field),
        None => Ok(String::from_str(lead).concat(slug).concat(tail)),
    }
}

/// Whether a target result is what [`normalized_entry`] gives.
pub open spec fn entry_outcome(r: Result<RenderTarget, Error>, entry: TargetEntryView) -> bool {
    match r {
        Ok(target) => normalized_entry(entry) == Ok::<RenderTargetView, Seq<char>>(target@),
        Err(error) => normalized_entry(entry) matches Err(message) && error.is_validation(message),
    }
}

/// Converts a raw configuration entry into a normalized render target. The
/// rules are applied in a fixed order, and the first one violated gives the
/// error.
pub fn normalize_entry(entry: &TargetEntry) -> (r: Result<RenderTarget, Error>)
    ensures
        entry_outcome(r, entry@),
{
    let owner = match normalize_identifier(entry.owner.as_str(), "owner") {
        Ok(owner) => owner,
        Err(error) => {
            return Err(error);
        },
    };
    let repository = match entry.target_type {
        TargetKind::Profile => None,
        TargetKind::OpenSource | TargetKind::PrivateProject => match &entry.repository {
            None => {
                return Err(Error::validation("repository is required for repository targets"));
            },
            Some(name) => match normalize_identifier(name.as_str(), "repository") {
                Ok(value) => Some(value),
                Err(error) => {
                    return Err(error);
                },
            },
        },
    };
    let slug = match entry.resolved_slug() {
        Some(slug) => slug,
        None => {
            return Err(Error::validation("unable to derive slug for target"));
        },
    };
    proof {
        let empty = Seq::<char>::empty();
        assert("ci/metrics-refresh-"@ + slug@ + ""@ == default_branch_name(slug@)) by {
            reveal_strlit("");
            assert(""@ =~= empty);
            assert("ci/metrics-refresh-"@ + slug@ + empty =~= "ci/metrics-refresh-"@ + slug@);
        }
    }
    let branch_name = match resolve_override(
        &entry.branch_name,
        "branch_name",
        "ci/metrics-refresh-",
        slug.as_str(),
        "",
    ) {
        Ok(value) => value,
        Err(error) => {
            return Err(error);
        },
    };
    let target_path = match resolve_override(
        &entry.target_path,
        "target_path",
        "metrics/",
        slug.as_str(),
        ".svg",
    ) {
        Ok(value) => value,
        Err(error) => {
            return Err(error);
        },
    };
    let temp_artifact = match resolve_override(
        &entry.temp_artifact,
        "temp_artifact",
        ".metrics-tmp/",
        slug.as_str(),
        ".svg",
    ) {
        Ok(value) => value,
        Err(error) => {
            return Err(error);
        },
    };
    let time_zone = resolve_time_zone(&entry.time_zone);
    let display_name = match entry.resolved_display_name() {
        Some(name) => name,
        None => {
            return Err(Error::validation("unable to derive display name for target"));
        },
    };
    let contributors_branch = match &entry.contributors_branch {
        Some(value) => match normalize_identifier(value.as_str(), "contributors_branch") {
            Ok(value) => value,
            Err(error) => {
                return Err(error);
            },
        },
        None => String::from_str("main"),
    };
    let include_private = match entry.include_private {
        Some(flag) => flag,
        None => default_include_private(owner.as_str(), entry.target_type),
    };
    let badge = match normalize_badge(entry.badge.as_ref()) {
        Ok(badge) => badge,
        Err(error) => {
            return Err(error);
        },
    };
    Ok(
        RenderTarget {
            slug,
            owner,
            repository,
            kind: entry.target_type,
            branch_name,
            target_path,
            temp_artifact,
            time_zone,
            display_name,
            contributors_branch,
            include_private,
            badge,
        },
    )
}

/// The time zone of a target: the trimmed override where one is present and
/// not blank, else the default.
fn resolve_time_zone(custom: &Option<String>) -> (r: String)
    ensures
        r@ == time_zone_rule(text_view(*custom)),
{
    if let Some(value) = custom {
        let chars = to_chars(value.as_str());
        let (start, end) = trim_bounds(&chars);
        if start < end {
            return to_text(&chars, start, end);
        }
    }
    String::from_str("Asia/Ho_Chi_Minh")
}

} // verus!
