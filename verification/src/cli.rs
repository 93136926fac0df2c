//! The decisions of the command line that do not depend on what it runs:
//! which options are understood, and how outcomes are reported.

use vstd::prelude::*;
use vstd::string::StringExecFns;
use crate::error::Error;
use crate::normalizer::TargetsDocument;
use crate::text::{decimal, decimal_text, text_eq};

verus! {

/// The format in which a listing is printed.
#[derive(Debug, Clone, Copy, PartialEq, Eq, Structural)]
pub enum OutputFormat {
    /// JSON.
    Json,
    /// YAML.
    Yaml,
}

/// The format that a name stands for.
pub open spec fn named_format(name: Seq<char>) -> Option<OutputFormat> {
    if name == "json"@ {
        Some(OutputFormat::Json)
    } else if name == "yaml"@ {
        Some(OutputFormat::Yaml)
    } else {
        None
    }
}

/// Reads the name of an output format.
pub fn parse_format(name: &str) -> (r: Result<OutputFormat, Error>)
    ensures
        match r {
            Ok(format) => named_format(name@) == Some(format),
            Err(error) => named_format(name@) is None && error.is_validation(
                "unsupported format: "@ + name@,
            ),
        },
{
    if text_eq(name, "json") {
        Ok(OutputFormat::Json)
    } else if text_eq(name, "yaml") {
        Ok(OutputFormat::Yaml)
    } else {
        Err(Error::Validation { message: String::from_str("unsupported format: ").concat(name) })
    }
}

/// The configuration path of an invocation without a subcommand, which
/// must name one.
pub fn require_config(config: Option<&str>) -> (r: Result<&str, Error>)
    ensures
        match r {
            Ok(path) => config == Some(path),
            Err(error) => config is None && error.is_validation(
                "missing required --config <PATH> argument"@,
            ),
        },
{
    match config {
        Some(path) => Ok(path),
        None => Err(Error::validation("missing required --config <PATH> argument")),
    }
}

/// Finds the target of a document that has the given slug: the position of
/// the first such target.
pub fn find_target(document: &TargetsDocument, slug: &str) -> (r: Result<usize, Error>)
    ensures
        match r {
            Ok(at) => at < document@.len() && document@[at as int].slug == slug@ && forall|k: int|
                0 <= k < at ==> document@[k].slug != slug@,
            Err(error) => (forall|k: int| 0 <= k < document@.len() ==> document@[k].slug != slug@)
                && error.is_validation("target '"@ + slug@ + "' was not found"@),
        },
{
    let mut at: usize = 0;
    while at < document.targets.len()
        invariant
            at <= document.targets.len(),
            forall|k: int| 0 <= k < at ==> document@[k].slug != slug@,
        decreases document.targets.len() - at,
    {
        if text_eq(document.targets[at].slug.as_str(), slug) {
            return Ok(at);
        }
        at += 1;
    }
    Err(
        Error::Validation {
            message: String::from_str("target '").concat(slug).concat("' was not found"),
        },
    )
}

/// Reports a batch of badge generations: an error where any failed.
pub fn generation_outcome(failed: usize) -> (r: Result<(), Error>)
    ensures
        match r {
            Ok(_) => failed == 0,
            Err(error) => failed > 0 && error.is_validation(
                decimal(failed as nat) + " badge(s) failed to generate"@,
            ),
        },
{
    if failed > 0 {
        return Err(
            Error::Validation {
                message: decimal_text(failed as u64).concat(" badge(s) failed to generate"),
            },
        );
    }
    Ok(())
}

} // verus!
