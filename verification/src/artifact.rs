//! The places where a rendered artifact is looked for, and what is reported
//! when it is in none of them. The file system itself is probed by the
//! caller.

use vstd::prelude::*;
use vstd::string::StringExecFns;
use crate::error::Error;
use crate::text::{text_view, text_views};

verus! {

/// `Path::join`: the path made of `base` extended with `part`, in the
/// notation of the platform. Nothing is claimed of the result.
#[verifier::external_body]
fn join_path(base: &str, part: &str) -> String {
    std::path::Path::new(base).join(part).to_string_lossy().into_owned()
}

/// `Path::file_name`: the final component of the path, if the path ends in
/// a name. Nothing is claimed of the result.
#[verifier::external_body]
fn file_name_of(path: &str) -> Option<String> {
    std::path::Path::new(path).file_name().map(|name| name.to_string_lossy().into_owned())
}

/// Result of artifact location containing the found path.
#[derive(Debug, Clone)]
pub struct ArtifactLocation {
    /// Path to the located artifact.
    pub path: String,
}

/// The file name of an artifact, or the message for an artifact that is
/// empty or has no file name.
pub open spec fn checked_name(temp_artifact: Seq<char>, file_name: Option<Seq<char>>) -> Result<
    Seq<char>,
    Seq<char>,
> {
    if temp_artifact.len() == 0 {
        Err("temp_artifact cannot be empty"@)
    } else {
        match file_name {
            None => Err("temp_artifact has no filename"@),
            Some(name) => Ok(name),
        }
    }
}

/// Checks an artifact against the file name that its path ends in: the
/// artifact must not be empty, and its path must end in a name.
pub fn check_artifact_name(temp_artifact: &str, file_name: Option<String>) -> (r: Result<
    String,
    Error,
>)
    ensures
        match r {
            Ok(name) => checked_name(temp_artifact@, text_view(file_name)) == Ok::<
                Seq<char>,
                Seq<char>,
            >(name@),
            Err(error) => checked_name(temp_artifact@, text_view(file_name)) matches Err(message)
                && error.is_validation(message),
        },
{
    if temp_artifact.is_empty() {
        return Err(Error::validation("temp_artifact cannot be empty"));
    }
    match file_name {
        Some(name) => Ok(name),
        None => Err(Error::validation("temp_artifact has no filename")),
    }
}

/// Lists the places where an artifact is looked for: under the workspace,
/// under the renders directory, and by its file name alone under the
/// renders directory. An artifact that is empty, or whose path does not end
/// in a name, is rejected.
pub fn artifact_candidates(temp_artifact: &str, workspace: &str) -> (r: Result<Vec<String>, Error>)
    ensures
        temp_artifact@.len() == 0 ==> (r matches Err(error) && error.is_validation(
            "temp_artifact cannot be empty"@,
        )),
        match r {
            Ok(paths) => temp_artifact@.len() > 0 && paths@.len() == 3,
            Err(error) => error.is_validation("temp_artifact cannot be empty"@)
                || error.is_validation("temp_artifact has no filename"@),
        },
{
    let name = match check_artifact_name(temp_artifact, file_name_of(temp_artifact)) {
        Ok(name) => name,
        Err(error) => {
            return Err(error);
        },
    };
    let mut paths: Vec<String> = Vec::new();
    paths.push(join_path(workspace, temp_artifact));
    paths.push(join_path("/metrics_renders", temp_artifact));
    paths.push(join_path("/metrics_renders", name.as_str()));
    Ok(paths)
}

/// The first candidate that is a file.
pub fn first_file(candidates: &Vec<String>, is_file: &Vec<bool>) -> (r: Option<ArtifactLocation>)
    requires
        is_file@.len() == candidates@.len(),
    ensures
        match r {
            Some(location) => exists|at: int|
                0 <= at < candidates@.len() && is_file@[at] && location.path@ == candidates@[at]@
                    && forall|k: int| 0 <= k < at ==> !is_file@[k],
            None => forall|k: int| 0 <= k < candidates@.len() ==> !is_file@[k],
        },
{
    let mut at: usize = 0;
    while at < candidates.len()
        invariant
            at <= candidates.len(),
            is_file@.len() == candidates@.len(),
            forall|k: int| 0 <= k < at ==> !is_file@[k],
        decreases candidates.len() - at,
    {
        if is_file[at] {
            return Some(ArtifactLocation { path: candidates[at].clone() });
        }
        at += 1;
    }
    None
}

/// The lines `  - path`, each ended by `end`.
pub open spec fn listed(paths: Seq<Seq<char>>, end: Seq<char>) -> Seq<char>
    decreases paths.len(),
{
    if paths.len() == 0 {
        Seq::empty()
    } else {
        listed(paths.drop_last(), end) + "  - "@ + paths.last() + end
    }
}

/// The lines `  - path`, separated by line feeds.
pub open spec fn searched(paths: Seq<Seq<char>>) -> Seq<char>
    decreases paths.len(),
{
    if paths.len() == 0 {
        Seq::empty()
    } else if paths.len() == 1 {
        "  - "@ + paths[0]
    } else {
        searched(paths.drop_last()) + "\n"@ + "  - "@ + paths.last()
    }
}

/// The message for an artifact that is in none of the places searched, with
/// the files found under the renders directory where that directory could
/// be listed.
pub open spec fn missing_message(candidates: Seq<Seq<char>>, found: Option<Seq<Seq<char>>>) -> Seq<
    char,
> {
    let head = "Unable to locate metrics artifact. Searched paths:\n"@ + searched(candidates);
    match found {
        None => head,
        Some(files) => head + "\n\nDiscovered files under /metrics_renders:\n"@ + listed(
            files,
            "\n"@,
        ),
    }
}

/// The views of an optional list of texts.
pub open spec fn found_views(found: Option<&Vec<String>>) -> Option<Seq<Seq<char>>> {
    match found {
        Some(files) => Some(text_views(files@)),
        None => None,
    }
}

/// Builds the error for an artifact that is in none of the places searched.
pub fn missing_artifact(candidates: &Vec<String>, found: Option<&Vec<String>>) -> (r: Error)
    ensures
        r.is_service(missing_message(text_views(candidates@), found_views(found))),
{
    let ghost paths = text_views(candidates@);
    let mut lines = String::new();
    let mut at: usize = 0;
    assert(paths.take(0) == Seq::<Seq<char>>::empty());
    while at < candidates.len()
        invariant
            at <= candidates.len(),
            paths == text_views(candidates@),
            lines@ == searched(paths.take(at as int)),
        decreases candidates.len() - at,
    {
        proof {
            let upto = paths.take(at as int + 1);
            assert(upto.drop_last() == paths.take(at as int));
            assert(upto.last() == candidates@[at as int]@);
            if at == 0 {
                assert(upto[0] == candidates@[0]@);
                assert(Seq::<char>::empty() + "  - "@ == "  - "@);
            }
        }
        if at > 0 {
            lines.append("\n");
        }
        lines.append("  - ");
        lines.append(candidates[at].as_str());
        at += 1;
    }
    assert(paths.take(candidates.len() as int) == paths);
    let mut message = String::from_str(
        "Unable to locate metrics artifact. Searched paths:\n",
    ).concat(lines.as_str());
    if let Some(files) = found {
        let ghost names = text_views(files@);
        let mut listing = String::new();
        let mut next: usize = 0;
        assert(names.take(0) == Seq::<Seq<char>>::empty());
        while next < files.len()
            invariant
                next <= files.len(),
                names == text_views(files@),
                listing@ == listed(names.take(next as int), "\n"@),
            decreases files.len() - next,
        {
            proof {
                let upto = names.take(next as int + 1);
                assert(upto.drop_last() == names.take(next as int));
                assert(upto.last() == files@[next as int]@);
            }
            listing.append("  - ");
            listing.append(files[next].as_str());
            listing.append("\n");
            next += 1;
        }
        assert(names.take(files.len() as int) == names);
        message.append("\n\nDiscovered files under /metrics_renders:\n");
        message.append(listing.as_str());
    }
    Error::Service { message }
}

} // verus!
