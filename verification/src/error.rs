//! The error surface shared by every operation of the crate.
//!
//! An error is either a decode failure, an I/O failure or a violated rule.
//! Sources and paths are held as text so that an error can be compared,
//! printed and carried across threads.

use vstd::prelude::*;
use vstd::string::StringExecFns;

verus! {

/// What formatting a text with `{:?}` prints for it.
pub uninterp spec fn debug_form(text: Seq<char>) -> Seq<char>;

/// The `Debug` form of a `str`, as `format!("{:?}", ..)` writes it: the text
/// between double quotes, with its special characters escaped.
#[verifier::external_body]
fn debug_text(text: &str) -> (r: String)
    ensures
        r@ == debug_form(text@),
{
    format!("{:?}", text)
}

/// Unified error type returned by the normalization and rendering helpers.
#[derive(Debug, Clone, PartialEq, Eq)]
pub enum Error {
    /// A configuration file could not be read.
    Io {
        /// Location of the configuration file.
        path: String,
        /// Message of the underlying I/O error.
        source: String,
    },
    /// A configuration document could not be decoded.
    Parse {
        /// Message of the decoder.
        source: String,
    },
    /// The configuration violates a rule.
    Validation {
        /// Human readable message describing the violated rule.
        message: String,
    },
    /// Normalized output could not be serialized.
    Serialize {
        /// Message of the serializer.
        source: String,
    },
    /// A badge artifact could not be written.
    BadgeIo {
        /// Location of the artifact being produced.
        path: String,
        /// Message of the underlying I/O error.
        source: String,
    },
    /// An external service failed.
    Service {
        /// Human readable message describing the failure.
        message: String,
    },
    /// An SVG file could not be processed.
    SvgIo {
        /// Location of the SVG file being processed.
        path: String,
        /// Message of the underlying I/O error.
        source: String,
    },
    /// The structure of an SVG file could not be analyzed.
    SvgParse {
        /// Human readable message describing the failure.
        message: String,
    },
}

impl Error {
    /// Whether this is a validation error with the given message.
    pub open spec fn is_validation(&self, text: Seq<char>) -> bool {
        self matches Error::Validation { message } && message@ == text
    }

    /// Whether this is a service error with the given message.
    pub open spec fn is_service(&self, text: Seq<char>) -> bool {
        self matches Error::Service { message } && message@ == text
    }

    /// The line printed for this error.
    pub open spec fn display(&self) -> Seq<char> {
        match self {
            Error::Io { path, source } => "failed to read configuration from "@ + debug_form(
                path@,
            ) + ": "@ + source@,
            Error::Parse { source } => "failed to parse configuration: "@ + source@,
            Error::Validation { message } => "invalid configuration: "@ + message@,
            Error::Serialize { source } => "failed to serialize targets: "@ + source@,
            Error::BadgeIo { path, source } => "failed to write badge artifact at "@ + debug_form(
                path@,
            ) + ": "@ + source@,
            Error::Service { message } => "service error: "@ + message@,
            Error::SvgIo { path, source } => "failed to process SVG at "@ + debug_form(path@)
                + ": "@ + source@,
            Error::SvgParse { message } => "failed to parse SVG: "@ + message@,
        }
    }

    /// Constructs a validation error from the given message.
    pub fn validation(message: &str) -> (r: Error)
        ensures
            r.is_validation(message@),
    {
        Error::Validation { message: String::from_str(message) }
    }

    /// Constructs a service error from the given message.
    pub fn service(message: &str) -> (r: Error)
        ensures
            r.is_service(message@),
    {
        Error::Service { message: String::from_str(message) }
    }

    /// Formats the error for diagnostics, without the variant name.
    pub fn to_display_string(&self) -> (r: String)
        ensures
            r@ == self.display(),
    {
        match self {
            Error::Io { path, source } => located(
                "failed to read configuration from ",
                path.as_str(),
                source.as_str(),
            ),
            Error::Parse { source } => String::from_str("failed to parse configuration: ").concat(
                source.as_str(),
            ),
            Error::Validation { message } => String::from_str("invalid configuration: ").concat(
                message.as_str(),
            ),
            Error::Serialize { source } => String::from_str(
                "failed to serialize targets: ",
            ).concat(source.as_str()),
            Error::BadgeIo { path, source } => located(
                "failed to write badge artifact at ",
                path.as_str(),
                source.as_str(),
            ),
            Error::Service { message } => String::from_str("service error: ").concat(
                message.as_str(),
            ),
            Error::SvgIo { path, source } => located(
                "failed to process SVG at ",
                path.as_str(),
                source.as_str(),
            ),
            Error::SvgParse { message } => String::from_str("failed to parse SVG: ").concat(
                message.as_str(),
            ),
        }
    }
}

/// The line for a failure at `path`: the lead, the quoted path, a colon and
/// the source's message.
fn located(lead: &str, path: &str, source: &str) -> (r: String)
    ensures
        r@ == lead@ + debug_form(path@) + ": "@ + source@,
{
    let quoted = debug_text(path);
    String::from_str(lead).concat(quoted.as_str()).concat(": ").concat(source)
}

/// Creates an [`Error::Io`] holding the failing path and the source's message.
pub fn io_error(path: &str, source: &str) -> (r: Error)
    ensures
        r matches Error::Io { path: p, source: s } && p@ == path@ && s@ == source@,
{
    Error::Io { path: String::from_str(path), source: String::from_str(source) }
}

/// Creates an [`Error::BadgeIo`] holding the failing path and the source's
/// message.
pub fn badge_io_error(path: &str, source: &str) -> (r: Error)
    ensures
        r matches Error::BadgeIo { path: p, source: s } && p@ == path@ && s@ == source@,
{
    Error::BadgeIo { path: String::from_str(path), source: String::from_str(source) }
}

/// Creates an [`Error::SvgIo`] holding the failing path and the source's
/// message.
pub fn svg_io_error(path: &str, source: &str) -> (r: Error)
    ensures
        r matches Error::SvgIo { path: p, source: s } && p@ == path@ && s@ == source@,
{
    Error::SvgIo { path: String::from_str(path), source: String::from_str(source) }
}

} // verus!
