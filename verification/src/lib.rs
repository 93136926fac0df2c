//! Normalization of metrics render targets.
//!
//! The crate turns loosely specified target entries into fully resolved,
//! collision-free render descriptors, and holds the rules of the tooling
//! around them.
//!
//! - [`slug`], [`config`], [`normalizer`] and [`document`] are the
//!   normalization engine: slugs, the shapes of entries and targets, the
//!   rules of one entry, and the pass over a whole document.
//! - [`open_source`] and [`render`] normalize workflow inputs.
//! - [`badge`] and [`readme`] build the placeholder badge and the tables of
//!   a README.
//! - [`discover`], [`sync`], [`slugs`], [`contributors`], [`artifact`],
//!   [`file`], [`git`], [`gh`] and [`cli`] hold the decisions of the
//!   operations that run outside the crate: what their output means and what
//!   to do next.
//! - [`text`], [`identifiers`] and [`error`] are shared by all of them.
//!
//! Every function states what it returns over the text that it is given,
//! modelled as a sequence of characters.

pub mod artifact;
pub mod badge;
pub mod cli;
pub mod config;
pub mod contributors;
pub mod discover;
pub mod document;
pub mod error;
pub mod file;
pub mod gh;
pub mod git;
pub mod identifiers;
pub mod normalizer;
pub mod open_source;
pub mod readme;
pub mod render;
pub mod slug;
pub mod slugs;
pub mod sync;
pub mod text;

pub use artifact::ArtifactLocation;
pub use badge::BadgeAssets;
pub use config::{
    BadgeOptions, BadgeStyle, BadgeWidgetAlignment, BadgeWidgetOptions, TargetConfig, TargetEntry,
    TargetKind,
};
pub use contributors::ContributorActivity;
pub use discover::{extract_repo_from_readme, DiscoveredRepository};
pub use document::{normalize_config, normalize_targets};
pub use error::{badge_io_error, io_error, svg_io_error, Error};
pub use file::FileMoveResult;
pub use gh::PrCreateResult;
pub use git::GitPushResult;
pub use normalizer::{
    normalize_entry, BadgeDescriptor, BadgeWidgetDescriptor, RenderTarget, TargetsDocument,
};
pub use open_source::{
    resolve_open_source_repositories, resolve_open_source_targets, OpenSourceRepository,
};
pub use render::{
    normalize_profile_inputs, normalize_repository_inputs, ProfileInputs, RepositoryInputs,
};
pub use slug::SlugStrategy;
pub use slugs::SlugDetectionResult;
